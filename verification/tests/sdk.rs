use v5gdb::motors::stop_all_motors;
use v5gdb::sdk::competition::{
    read_override, read_status, set_override, CompetitionOverride, CompetitionStatus,
};
use v5gdb::sdk::serial::{
    byte_from_raw, byte_written_from_raw, capacity_from_raw, raw_from_byte, remaining_after_write,
    written_from_raw, Channel, OUT_BUF_SIZE,
};
use v5gdb::sdk::{trampoline_layout, TrampolineLayout};

#[test]
fn competition_flags() {
    let s = CompetitionStatus::new_with_raw_value(0b1101);
    assert!(s.disabled());
    assert!(!s.autonomous());
    assert!(s.connected());
    assert!(s.system());
    assert!(!s.gdb_override());
    assert_eq!(s.with_autonomous(true).raw_value(), 0b1111);
    assert_eq!(s.with_disabled(false).raw_value(), 0b1100);
    assert_eq!(s.with_gdb_override(true).raw_value(), 0x8000_000D);
    assert_eq!(CompetitionStatus::zero().raw_value(), 0);
}

#[test]
fn competition_descriptions() {
    let s = CompetitionStatus::zero();
    assert_eq!(s.describe(), "opcontrol/disconnected");
    assert_eq!(s.with_disabled(true).with_connected(true).with_system(true).describe(), "disabled/field-control");
    assert_eq!(s.with_autonomous(true).with_connected(true).describe(), "autonomous/competition-switch");
    // Disabled wins over autonomous.
    assert_eq!(s.with_autonomous(true).with_disabled(true).mode_name(), "disabled");
}

#[test]
fn competition_override_roundtrip() {
    let mut slot = CompetitionOverride::new();
    assert_eq!(read_override(&slot), None);
    let s = CompetitionStatus::zero().with_autonomous(true).with_connected(true);
    set_override(&mut slot, Some(s));
    assert_eq!(slot.raw_value(), 0x8000_0006);
    assert_eq!(read_override(&slot), Some(s));
    let real_status = CompetitionStatus::new_with_raw_value(0b0001);
    assert_eq!(read_status(&slot, real_status), s);
    set_override(&mut slot, None);
    assert_eq!(slot.raw_value(), 0);
    assert_eq!(read_override(&slot), None);
    assert_eq!(read_status(&slot, real_status), real_status);
}

#[test]
fn competition_override_marker_is_not_reported() {
    let mut slot = CompetitionOverride::new();
    let marked = CompetitionStatus::new_with_raw_value(0x8000_0001);
    set_override(&mut slot, Some(marked));
    assert_eq!(read_override(&slot), Some(CompetitionStatus::new_with_raw_value(1)));
    assert_eq!(read_override(&CompetitionOverride::from_raw(0x0000_0001)), None);
}

#[test]
fn serial_return_values() {
    assert_eq!(byte_from_raw(-1), None);
    assert_eq!(byte_from_raw(0x41), Some(0x41));
    assert_eq!(byte_from_raw(0), Some(0));
    assert_eq!(byte_from_raw(0x141), Some(0x41));
    assert_eq!(capacity_from_raw(-1), None);
    assert_eq!(capacity_from_raw(2048), Some(2048));
    assert_eq!(written_from_raw(-1), Err(()));
    assert_eq!(written_from_raw(5), Ok(5));
    assert!(byte_written_from_raw(1));
    assert!(!byte_written_from_raw(0));
    assert_eq!(raw_from_byte(None), -1);
    assert_eq!(raw_from_byte(Some(0xFF)), 255);
    assert_eq!(byte_from_raw(raw_from_byte(Some(0xFF))), Some(0xFF));
    assert_eq!(remaining_after_write(10, 4), 6);
    assert_eq!(remaining_after_write(10, 10), 0);
    assert_eq!(remaining_after_write(10, 20), 0);
    assert_eq!(OUT_BUF_SIZE, 2048);
}

#[test]
fn serial_channels() {
    assert!(Channel::user().is_user());
    assert_eq!(Channel::user(), Channel(1));
    assert!(!Channel(2).is_user());
    assert_eq!(Channel::from(1u32), Channel(1));
}

#[test]
fn motors_on_noncontiguous_ports_are_all_stopped() {
    let connected = [true, false, false, false, true, false];
    assert_eq!(stop_all_motors(&connected), vec![0, 4]);
    assert_eq!(stop_all_motors(&[false; 32]), Vec::<u32>::new());
    assert_eq!(stop_all_motors(&[]), Vec::<u32>::new());
}

#[test]
fn trampoline_layout_for_both_instruction_sets() {
    let arm = (0x0380_0000, 0x0380_000C);
    let thumb = (0x0380_0101, 0x0380_0108);
    assert_eq!(
        trampoline_layout(0x0390_0000, arm, thumb),
        TrampolineLayout {
            thumb: false,
            source_addr: 0x0380_0000,
            write_addr: 0x0390_0000,
            code_len: 6,
            destination_slot: 0x0390_000C,
        }
    );
    assert_eq!(
        trampoline_layout(0x0390_0203, arm, thumb),
        TrampolineLayout {
            thumb: true,
            source_addr: 0x0380_0100,
            write_addr: 0x0390_0202,
            code_len: 4,
            destination_slot: 0x0390_020A,
        }
    );
}
