use v5gdb::gdb_target::arch::{ArmBreakpointKind, ArmRegisterID};

#[test]
fn breakpoint_kinds() {
    assert_eq!(ArmBreakpointKind::from_usize(2), Some(ArmBreakpointKind::Thumb16));
    assert_eq!(ArmBreakpointKind::from_usize(3), Some(ArmBreakpointKind::Thumb32));
    assert_eq!(ArmBreakpointKind::from_usize(4), Some(ArmBreakpointKind::Arm32));
    assert_eq!(ArmBreakpointKind::from_usize(0), None);
    assert_eq!(ArmBreakpointKind::from_usize(1), None);
    assert_eq!(ArmBreakpointKind::from_usize(5), None);
}

#[test]
fn register_ids() {
    assert_eq!(ArmRegisterID::from_raw_id(0), Some((ArmRegisterID::Gpr(0), Some(4))));
    assert_eq!(ArmRegisterID::from_raw_id(12), Some((ArmRegisterID::Gpr(12), Some(4))));
    assert_eq!(ArmRegisterID::from_raw_id(13), Some((ArmRegisterID::Sp, Some(4))));
    assert_eq!(ArmRegisterID::from_raw_id(14), Some((ArmRegisterID::Lr, Some(4))));
    assert_eq!(ArmRegisterID::from_raw_id(15), Some((ArmRegisterID::Pc, Some(4))));
    assert_eq!(ArmRegisterID::from_raw_id(16), None);
    assert_eq!(ArmRegisterID::from_raw_id(24), None);
    assert_eq!(ArmRegisterID::from_raw_id(25), Some((ArmRegisterID::Cpsr, Some(4))));
    assert_eq!(ArmRegisterID::from_raw_id(26), Some((ArmRegisterID::Fpr(0), Some(8))));
    assert_eq!(ArmRegisterID::from_raw_id(57), Some((ArmRegisterID::Fpr(31), Some(8))));
    assert_eq!(ArmRegisterID::from_raw_id(58), Some((ArmRegisterID::Fpscr, Some(4))));
    assert_eq!(ArmRegisterID::from_raw_id(59), None);
}

#[test]
fn register_sizes() {
    assert_eq!(ArmRegisterID::Fpr(3).size(), 8);
    assert_eq!(ArmRegisterID::Cpsr.size(), 4);
    assert_eq!(ArmRegisterID::Gpr(7).size(), 4);
}
