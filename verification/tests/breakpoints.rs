use v5gdb::cpu::instruction::Instruction;
use v5gdb::gdb_target::arch::ArmBreakpointKind;
use v5gdb::gdb_target::breakpoint::hardware::{HwBreakpointManager, Specificity};
use v5gdb::gdb_target::breakpoint::software::{SwBreakpointTable, ARM_BKPT, THUMB_BKPT};
use v5gdb::gdb_target::breakpoint::BreakpointError;
use v5gdb::gdb_target::V5Target;

#[test]
fn hardware_breakpoints_follow_the_debug_unit_rules() {
    let mut manager = HwBreakpointManager::new(6);

    // Normal breaks.
    manager
        .add_breakpoint_at(0x0380_0000, Specificity::Match, ArmBreakpointKind::Arm32)
        .unwrap();
    let bp0 = manager.slot(0).unwrap();
    assert_eq!(bp0.value_register(), 0x0380_0000);
    assert_eq!(bp0.byte_address_select(), 0b1111);

    manager.reset();
    assert!(manager.slot(0).is_none());

    // Breaks with a size of 2 select only part of the 4-byte word.
    manager
        .add_breakpoint_at(0x0380_0000, Specificity::Match, ArmBreakpointKind::Thumb16)
        .unwrap();
    assert_eq!(manager.slot(0).unwrap().byte_address_select(), 0b0011);

    manager.reset();
    manager
        .add_breakpoint_at(0x0380_0002, Specificity::Match, ArmBreakpointKind::Thumb16)
        .unwrap();
    let bp = manager.slot(0).unwrap();
    assert_eq!(bp.byte_address_select(), 0b1100);
    assert_eq!(bp.value_register(), 0x0380_0000);

    // Duplicate.
    let res = manager.add_breakpoint_at(0x0380_0002, Specificity::Match, ArmBreakpointKind::Thumb16);
    assert_eq!(res, Err(BreakpointError::AlreadyExists));

    // Misalignment.
    manager.reset();
    let res = manager.add_breakpoint_at(0xfff2, Specificity::Match, ArmBreakpointKind::Arm32);
    assert_eq!(res, Err(BreakpointError::NotAlignedCorrectly));
    manager
        .add_breakpoint_at(0xfff2, Specificity::Match, ArmBreakpointKind::Thumb16)
        .unwrap();
    let res = manager.add_breakpoint_at(0xfff1, Specificity::Match, ArmBreakpointKind::Thumb16);
    assert_eq!(res, Err(BreakpointError::NotAlignedCorrectly));

    // Too many.
    manager.reset();
    let num_breaks = manager.capabilities().num_breakpoints as u32;
    for i in 0..num_breaks {
        manager
            .add_breakpoint_at(i * 4, Specificity::Match, ArmBreakpointKind::Arm32)
            .unwrap();
    }
    let res = manager.add_breakpoint_at(num_breaks * 4, Specificity::Match, ArmBreakpointKind::Arm32);
    assert_eq!(res, Err(BreakpointError::NoSpace));

    manager.reset();
    for i in 0..6 {
        assert!(manager.slot(i).is_none());
    }
}

#[test]
fn hardware_breakpoint_removal() {
    let mut manager = HwBreakpointManager::new(2);
    manager
        .add_breakpoint_at(0x100, Specificity::Mismatch, ArmBreakpointKind::Arm32)
        .unwrap();
    manager
        .add_breakpoint_at(0x200, Specificity::Match, ArmBreakpointKind::Thumb32)
        .unwrap();
    assert!(manager.has_breakpoint_at(0x100));
    assert!(manager.remove_breakpoint_at(0x100));
    assert!(!manager.has_breakpoint_at(0x100));
    assert!(!manager.remove_breakpoint_at(0x100));
    // The freed slot is the first one and is reused.
    manager
        .add_breakpoint_at(0x300, Specificity::Match, ArmBreakpointKind::Arm32)
        .unwrap();
    assert_eq!(manager.slot(0).unwrap().addr, 0x300);
    assert_eq!(manager.slot(1).unwrap().addr, 0x200);
    assert_eq!(manager.slot(2), None);
}

#[test]
fn software_breakpoint_registration() {
    let mut table = SwBreakpointTable::new(2);
    let arm = Instruction::Arm(0xE1A0_0000);
    let thumb = Instruction::Thumb16(0x4770);

    assert_eq!(table.register(0x1002, arm, false, true), Err(BreakpointError::NotAlignedCorrectly));
    assert_eq!(table.register(0x1001, thumb, false, true), Err(BreakpointError::NotAlignedCorrectly));
    assert_eq!(table.register(0x1000, arm, false, false), Err(BreakpointError::CannotWrite));

    assert_eq!(table.register(0x1000, arm, false, true), Ok(0));
    let b = table.get(0).unwrap();
    assert!(b.enabled && b.reason.user && !b.reason.internal);
    assert_eq!(b.site_instruction(), Instruction::Arm(ARM_BKPT));

    // The same reason twice is refused; another reason joins the breakpoint.
    assert_eq!(table.register(0x1000, arm, false, true), Err(BreakpointError::AlreadyExists));
    assert_eq!(table.register(0x1000, arm, true, false), Ok(0));
    let b = table.get(0).unwrap();
    assert!(b.reason.user && b.reason.internal);

    assert_eq!(table.register(0x2002, thumb, true, true), Ok(1));
    assert_eq!(table.get(1).unwrap().site_instruction(), Instruction::Thumb16(THUMB_BKPT));
    assert_eq!(table.register(0x3000, arm, false, true), Err(BreakpointError::NoSpace));
    assert_eq!(table.find(0x2002), Some(1));
    assert_eq!(table.find(0x3000), None);
}

#[test]
fn software_breakpoint_removal_by_reason() {
    let mut table = SwBreakpointTable::new(4);
    let arm = Instruction::Arm(0xE1A0_0000);
    table.register(0x1000, arm, false, true).unwrap();
    table.register(0x1000, arm, true, true).unwrap();

    assert!(table.remove(0x1000, false));
    let b = table.get(0).unwrap();
    assert!(!b.reason.user && b.reason.internal);
    assert!(!table.remove(0x1000, false));
    assert!(table.remove(0x1000, true));
    assert!(table.get(0).is_none());
    assert!(!table.remove(0x1000, true));
}

#[test]
fn pausing_disables_every_breakpoint() {
    let mut target = V5Target::new(4, 2);
    let arm = Instruction::Arm(0xE1A0_0000);
    target.register_sw_breakpoint(0x1000, arm, false, true).unwrap();
    target.register_sw_breakpoint(0x2000, arm, true, true).unwrap();

    target.set_breakpoints_ignored(true);
    assert!(target.breakpoints_ignored());
    for id in 0..2 {
        let b = target.breakpoint(id).unwrap();
        assert!(!b.enabled);
        assert_eq!(b.site_instruction(), arm);
    }
    // A breakpoint placed while paused starts disabled.
    target.register_sw_breakpoint(0x3000, arm, false, true).unwrap();
    assert!(!target.breakpoint(2).unwrap().enabled);

    target.set_breakpoints_ignored(false);
    assert!(!target.breakpoints_ignored());
    for id in 0..3 {
        assert!(target.breakpoint(id).unwrap().enabled);
    }
    assert!(target.breakpoint(3).is_none());
    assert!(target.breakpoint(9).is_none());
}

#[test]
fn register_then_remove_restores_the_table() {
    let mut target = V5Target::new(3, 0);
    let thumb = Instruction::Thumb32([0xF000, 0xB800]);
    target.register_sw_breakpoint(0x4000, thumb, true, true).unwrap();
    assert!(target.remove_sw_breakpoint(0x4000, true));
    for id in 0..3 {
        assert!(target.breakpoint(id).is_none());
    }
}

#[test]
fn pause_then_resume_gives_back_every_breakpoint() {
    let mut target = V5Target::new(4, 0);
    target.register_sw_breakpoint(0x1000, Instruction::Arm(0xE1A0_0000), false, true).unwrap();
    target.register_sw_breakpoint(0x2002, Instruction::Thumb16(0x4770), true, true).unwrap();
    target.register_sw_breakpoint(0x2002, Instruction::Thumb16(0x4770), false, true).unwrap();
    let snapshot = |t: &V5Target| {
        (0..4)
            .map(|id| t.breakpoint(id).map(|b| (b.addr, b.replaced, b.enabled, b.reason)))
            .collect::<Vec<_>>()
    };
    let before = snapshot(&target);
    target.set_breakpoints_ignored(true);
    assert_ne!(snapshot(&target), before);
    target.set_breakpoints_ignored(false);
    assert_eq!(snapshot(&target), before);
}

#[test]
fn hardware_add_then_remove_restores_slots() {
    let mut manager = HwBreakpointManager::new(3);
    manager.add_breakpoint_at(0x100, Specificity::Match, ArmBreakpointKind::Arm32).unwrap();
    manager.add_breakpoint_at(0x204, Specificity::Mismatch, ArmBreakpointKind::Thumb16).unwrap();
    let before: Vec<_> = (0..3).map(|i| manager.slot(i)).collect();
    manager.add_breakpoint_at(0x302, Specificity::Match, ArmBreakpointKind::Thumb32).unwrap();
    assert_eq!(
        manager.add_breakpoint_at(0x302, Specificity::Match, ArmBreakpointKind::Thumb32),
        Err(BreakpointError::AlreadyExists)
    );
    assert!(manager.remove_breakpoint_at(0x302));
    let after: Vec<_> = (0..3).map(|i| manager.slot(i)).collect();
    assert_eq!(after, before);
}
