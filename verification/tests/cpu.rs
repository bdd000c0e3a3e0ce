use v5gdb::cpu::exception::VectorBaseAddressRegister;
use v5gdb::cpu::instruction::{is_thumb32, Instruction};
use v5gdb::cpu::ProgramStatus;

#[test]
fn thumb32_prefix_boundaries() {
    assert!(!is_thumb32(0x0000));
    assert!(!is_thumb32(0xBE00));
    assert!(!is_thumb32(0xE7FF));
    assert!(is_thumb32(0xE800));
    assert!(is_thumb32(0xF000));
    assert!(is_thumb32(0xFFFF));
}

#[test]
fn instruction_sizes_and_sets() {
    assert_eq!(Instruction::Arm(0xE120_0070).size(), 4);
    assert_eq!(Instruction::Thumb16(0xBE00).size(), 2);
    assert_eq!(Instruction::Thumb32([0xF000, 0xB800]).size(), 4);
    assert!(!Instruction::Arm(0).is_thumb());
    assert!(Instruction::Thumb16(0).is_thumb());
    assert!(Instruction::Thumb32([0xF000, 0]).is_thumb());
}

#[test]
fn instruction_as_usize() {
    assert_eq!(Instruction::Arm(0xE120_0070).as_usize(), 0xE120_0070);
    assert_eq!(Instruction::Thumb16(0xBE00).as_usize(), 0xBE00);
    let value = Instruction::Thumb32([0xF000, 0xB800]).as_usize();
    // The halfwords keep their place in memory, so the value depends on the byte order.
    assert!(value == 0xB800_F000 || value == 0xF000_B800);
}

#[test]
fn instruction_decode_arm() {
    let bytes = [0x70, 0x00, 0x20, 0xE1, 0xFF];
    assert_eq!(Instruction::decode(&bytes, false), Some(Instruction::Arm(0xE120_0070)));
    assert_eq!(Instruction::decode(&bytes[..3], false), None);
}

#[test]
fn instruction_decode_thumb() {
    // A 16-bit instruction reads only the first halfword.
    assert_eq!(Instruction::decode(&[0x00, 0xBE], true), Some(Instruction::Thumb16(0xBE00)));
    // A 32-bit prefix needs the second halfword.
    assert_eq!(Instruction::decode(&[0x00, 0xF0], true), None);
    assert_eq!(
        Instruction::decode(&[0x00, 0xF0, 0x00, 0xB8], true),
        Some(Instruction::Thumb32([0xF000, 0xB800]))
    );
    assert_eq!(Instruction::decode(&[0x00], true), None);
}

#[test]
fn instruction_bytes_roundtrip() {
    let cases = [
        Instruction::Arm(0x1234_5678),
        Instruction::Thumb16(0x4770),
        Instruction::Thumb32([0xE92D, 0x4FF0]),
    ];
    for i in cases {
        let bytes = i.to_le_bytes();
        assert_eq!(bytes.len(), i.size());
        assert_eq!(Instruction::decode(&bytes, i.is_thumb()), Some(i));
    }
    assert_eq!(Instruction::Arm(0x1234_5678).to_le_bytes(), vec![0x78, 0x56, 0x34, 0x12]);
    assert_eq!(Instruction::Thumb32([0xE92D, 0x4FF0]).to_le_bytes(), vec![0x2D, 0xE9, 0xF0, 0x4F]);
}

#[test]
fn program_status_fields() {
    let cpsr = ProgramStatus::new_with_raw_value(0x6000_0033);
    assert!(cpsr.thumb());
    assert_eq!(cpsr.mode(), 0b10011);
    let arm = cpsr.with_thumb(false);
    assert!(!arm.thumb());
    assert_eq!(arm.raw_value(), 0x6000_0013);
    assert_eq!(arm.with_thumb(true).raw_value(), 0x6000_0033);
    let mut s = ProgramStatus::new_with_raw_value(0);
    *s.raw_value_mut() = 0x10;
    assert_eq!(s.raw_value(), 0x10);
    assert_eq!(s.mode(), 0x10);
}

#[test]
fn vector_base_address() {
    let vbar = VectorBaseAddressRegister::new(0x0380_0020);
    assert_eq!(vbar.raw_value(), 0x0380_0020);
    assert_eq!(vbar.ptr(), 0x0380_0020);
    assert_eq!(VectorBaseAddressRegister::new_with_raw_value(0x0380_003F).ptr(), 0x0380_0020);
}

#[test]
fn decoded_instruction_writes_back_its_bytes() {
    let arm = [0x70, 0x00, 0x20, 0xE1, 0xAA];
    let i = Instruction::decode(&arm, false).unwrap();
    assert_eq!(i.to_le_bytes(), arm[..4].to_vec());
    let thumb16 = [0x00, 0xBE, 0x12, 0x34];
    let i = Instruction::decode(&thumb16, true).unwrap();
    assert_eq!(i, Instruction::Thumb16(0xBE00));
    assert_eq!(i.to_le_bytes(), thumb16[..2].to_vec());
    let thumb32 = [0x00, 0xF0, 0x00, 0xB8];
    let i = Instruction::decode(&thumb32, true).unwrap();
    assert_eq!(i, Instruction::Thumb32([0xF000, 0xB800]));
    assert_eq!(i.to_le_bytes(), thumb32.to_vec());
}

#[test]
fn program_status_every_field() {
    // N and C set, IT[1:0] = 0b10, GE = 0b0101, IT[7:2] = 0b100001, I and T set, mode 0b10011.
    let raw = 0xA000_0000 | (0b10 << 25) | (0b0101 << 16) | (0b100001 << 10) | (1 << 7) | (1 << 5) | 0b10011;
    let s = ProgramStatus::new_with_raw_value(raw);
    assert!(s.negative() && !s.zero() && s.carry() && !s.overflow() && !s.cumulative_sat());
    assert!(!s.jazelle() && !s.big_endian() && !s.async_abort_disabled());
    assert!(s.irq_disabled() && !s.fiq_disabled() && s.thumb());
    assert_eq!(s.if_then_1_0(), 0b10);
    assert_eq!(s.gt_eq_flags(), 0b0101);
    assert_eq!(s.if_then_7_2(), 0b100001);
    assert_eq!(s.mode(), 0b10011);
    let t = s.with_zero(true).with_negative(false).with_fiq_disabled(true).with_gt_eq_flags(0b1010);
    assert_eq!(t.raw_value(), (raw | (1 << 30) | (1 << 6)) & !(1 << 31) & !(0xF << 16) | (0b1010 << 16));
    assert_eq!(s.with_mode(0b11111).mode(), 0b11111);
    assert_eq!(s.with_if_then_7_2(0).if_then_7_2(), 0);
    assert_eq!(s.with_if_then_1_0(0b01).raw_value(), raw & !(0b11 << 25) | (0b01 << 25));
    assert!(s.with_jazelle(true).jazelle());
    assert!(s.with_big_endian(true).with_async_abort_disabled(true).big_endian());
    assert!(s.with_overflow(true).with_cumulative_sat(true).with_carry(false).cumulative_sat());
    assert!(!s.with_irq_disabled(false).irq_disabled());
}
