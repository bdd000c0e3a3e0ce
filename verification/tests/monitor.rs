use v5gdb::gdb_target::monitor::{
    apply_monitor_cmd, connected_devices, device_type_name, parse_monitor_args, parse_monitor_cmd,
    AutostopArg, CompetitionRequest, DebugQuery, LogLevel, MonitorCommand,
};
use v5gdb::gdb_target::V5Target;
use v5gdb::sdk::competition::{read_override, read_status, CompetitionOverride, CompetitionStatus};

#[test]
fn parses_commands() {
    assert_eq!(parse_monitor_cmd(b"stop"), MonitorCommand::Stop);
    assert_eq!(parse_monitor_cmd(b"autostop true"), MonitorCommand::Autostop(AutostopArg::Enable));
    assert_eq!(parse_monitor_cmd(b"autostop false"), MonitorCommand::Autostop(AutostopArg::Disable));
    assert_eq!(parse_monitor_cmd(b"autostop ?"), MonitorCommand::Autostop(AutostopArg::Query));
    assert_eq!(parse_monitor_cmd(b"autostop maybe"), MonitorCommand::Autostop(AutostopArg::Unknown));
    assert_eq!(parse_monitor_cmd(b"autostop"), MonitorCommand::Autostop(AutostopArg::Missing));
    assert_eq!(parse_monitor_cmd(b"  devices  "), MonitorCommand::Devices);
    assert_eq!(parse_monitor_cmd(b"dev"), MonitorCommand::Devices);
    assert_eq!(parse_monitor_cmd(b"batt"), MonitorCommand::Battery);
    assert_eq!(parse_monitor_cmd(b"battery"), MonitorCommand::Battery);
    assert_eq!(parse_monitor_cmd(b"ctrl"), MonitorCommand::Controller { partner: false });
    assert_eq!(parse_monitor_cmd(b"ctrl p"), MonitorCommand::Controller { partner: true });
    assert_eq!(parse_monitor_cmd(b"ctrl partner"), MonitorCommand::Controller { partner: true });
    assert_eq!(parse_monitor_cmd(b"ctrl primary"), MonitorCommand::Controller { partner: false });
    assert_eq!(parse_monitor_cmd(b"comp"), MonitorCommand::Competition(CompetitionRequest::Show));
    assert_eq!(parse_monitor_cmd(b"comp op"), MonitorCommand::Competition(CompetitionRequest::Driver));
    assert_eq!(parse_monitor_cmd(b"comp auton"), MonitorCommand::Competition(CompetitionRequest::Autonomous));
    assert_eq!(parse_monitor_cmd(b"comp dis"), MonitorCommand::Competition(CompetitionRequest::Disabled));
    assert_eq!(parse_monitor_cmd(b"comp none"), MonitorCommand::Competition(CompetitionRequest::NoSystem));
    assert_eq!(parse_monitor_cmd(b"comp field-control"), MonitorCommand::Competition(CompetitionRequest::FieldControl));
    assert_eq!(parse_monitor_cmd(b"comp switch"), MonitorCommand::Competition(CompetitionRequest::Switch));
    assert_eq!(parse_monitor_cmd(b"comp real"), MonitorCommand::Competition(CompetitionRequest::Real));
    assert_eq!(parse_monitor_cmd(b"comp what"), MonitorCommand::Competition(CompetitionRequest::Unknown));
    assert_eq!(parse_monitor_cmd(b"dbg"), MonitorCommand::Debug(DebugQuery::Missing));
    assert_eq!(parse_monitor_cmd(b"dbg break"), MonitorCommand::Debug(DebugQuery::Breakpoints));
    assert_eq!(parse_monitor_cmd(b"dbg hw"), MonitorCommand::Debug(DebugQuery::Hardware));
    assert_eq!(parse_monitor_cmd(b"dbg mem"), MonitorCommand::Debug(DebugQuery::Unknown));
    assert_eq!(parse_monitor_cmd(b"log debug"), MonitorCommand::Log(Some(LogLevel::Debug)));
    assert_eq!(parse_monitor_cmd(b"sys tasks"), MonitorCommand::Sys);
    assert_eq!(parse_monitor_cmd(b"help"), MonitorCommand::Help);
    assert_eq!(parse_monitor_cmd(b"?"), MonitorCommand::Help);
    assert_eq!(parse_monitor_cmd(b"h"), MonitorCommand::Help);
    assert_eq!(parse_monitor_cmd(b""), MonitorCommand::Help);
    assert_eq!(parse_monitor_cmd(b"   "), MonitorCommand::Help);
    assert_eq!(parse_monitor_cmd(&[0xFF, 0xFE]), MonitorCommand::Help);
    assert_eq!(parse_monitor_cmd(b"frobnicate"), MonitorCommand::Unknown);
    assert_eq!(parse_monitor_cmd(b"STOP"), MonitorCommand::Unknown);
}

#[test]
fn parses_word_lists() {
    assert_eq!(parse_monitor_args(&vec![]), MonitorCommand::Help);
    assert_eq!(parse_monitor_args(&vec!["comp", "fc", "extra"]), MonitorCommand::Competition(CompetitionRequest::FieldControl));
}

#[test]
fn autostop_switches_motor_stop() {
    let mut target = V5Target::new(1, 1);
    let mut comp = CompetitionOverride::new();
    let status = CompetitionStatus::zero();
    apply_monitor_cmd(&mut target, &mut comp, MonitorCommand::Autostop(AutostopArg::Enable), status);
    assert!(target.stop_motors_on_break);
    apply_monitor_cmd(&mut target, &mut comp, MonitorCommand::Autostop(AutostopArg::Query), status);
    assert!(target.stop_motors_on_break);
    apply_monitor_cmd(&mut target, &mut comp, MonitorCommand::Autostop(AutostopArg::Disable), status);
    assert!(!target.stop_motors_on_break);
    assert_eq!(comp.raw_value(), 0);
}

#[test]
fn competition_requests_override_the_status() {
    let mut target = V5Target::new(1, 1);
    let mut comp = CompetitionOverride::new();
    let field_disabled = CompetitionStatus::new_with_raw_value(0b1101);

    apply_monitor_cmd(&mut target, &mut comp, MonitorCommand::Competition(CompetitionRequest::Driver), field_disabled);
    assert_eq!(read_override(&comp), Some(CompetitionStatus::new_with_raw_value(0b1100)));

    apply_monitor_cmd(&mut target, &mut comp, MonitorCommand::Competition(CompetitionRequest::Autonomous), field_disabled);
    assert_eq!(read_override(&comp), Some(CompetitionStatus::new_with_raw_value(0b1110)));

    apply_monitor_cmd(&mut target, &mut comp, MonitorCommand::Competition(CompetitionRequest::Switch), field_disabled);
    assert_eq!(read_override(&comp), Some(CompetitionStatus::new_with_raw_value(0b0101)));

    apply_monitor_cmd(&mut target, &mut comp, MonitorCommand::Competition(CompetitionRequest::NoSystem), field_disabled);
    assert_eq!(read_override(&comp), Some(CompetitionStatus::new_with_raw_value(0b0001)));

    apply_monitor_cmd(&mut target, &mut comp, MonitorCommand::Competition(CompetitionRequest::Show), field_disabled);
    assert_eq!(read_override(&comp), Some(CompetitionStatus::new_with_raw_value(0b0001)));

    apply_monitor_cmd(&mut target, &mut comp, MonitorCommand::Competition(CompetitionRequest::Real), field_disabled);
    assert_eq!(read_override(&comp), None);
    assert!(!target.stop_motors_on_break);
}

#[test]
fn competition_request_changes() {
    let s = CompetitionStatus::zero();
    assert_eq!(CompetitionRequest::Disabled.apply(s), Some(Some(CompetitionStatus::new_with_raw_value(0b0001))));
    assert_eq!(CompetitionRequest::FieldControl.apply(s), Some(Some(CompetitionStatus::new_with_raw_value(0b1100))));
    assert_eq!(CompetitionRequest::Real.apply(s), Some(None));
    assert_eq!(CompetitionRequest::Unknown.apply(s), None);
}

#[test]
fn device_names() {
    assert_eq!(device_type_name(2), "Motor");
    assert_eq!(device_type_name(4), "Rotation");
    assert_eq!(device_type_name(6), "Inertial (IMU)");
    assert_eq!(device_type_name(12), "ADI (3-Wire)");
    assert_eq!(device_type_name(129), "Generic Serial");
    assert_eq!(device_type_name(3), "Unknown");
    assert_eq!(device_type_name(0), "Unknown");
}

#[test]
fn device_listing_stops_at_undefined_and_skips_empty() {
    let types = [2, 0, 0, 6, 255, 2];
    assert_eq!(connected_devices(&types), vec![(1, 2), (4, 6)]);
    assert_eq!(connected_devices(&[0, 0]), vec![]);
    assert_eq!(connected_devices(&[255, 2]), vec![]);
}

#[test]
fn parses_log_levels_in_any_case() {
    assert_eq!(parse_monitor_cmd(b"log off"), MonitorCommand::Log(Some(LogLevel::Off)));
    assert_eq!(parse_monitor_cmd(b"log ERROR"), MonitorCommand::Log(Some(LogLevel::Error)));
    assert_eq!(parse_monitor_cmd(b"log Warn"), MonitorCommand::Log(Some(LogLevel::Warn)));
    assert_eq!(parse_monitor_cmd(b"log info"), MonitorCommand::Log(Some(LogLevel::Info)));
    assert_eq!(parse_monitor_cmd(b"log dEbUg"), MonitorCommand::Log(Some(LogLevel::Debug)));
    assert_eq!(parse_monitor_cmd(b"log trace"), MonitorCommand::Log(Some(LogLevel::Trace)));
    assert_eq!(parse_monitor_cmd(b"log verbose"), MonitorCommand::Log(None));
    assert_eq!(parse_monitor_cmd(b"log"), MonitorCommand::Log(None));
    assert_eq!(parse_monitor_cmd(b"log debu"), MonitorCommand::Log(None));
}

#[test]
fn user_code_sees_a_competition_request() {
    let mut target = V5Target::new(1, 1);
    let mut comp = CompetitionOverride::new();
    // A field-control match in driver control, with an unrelated bit set.
    let real = CompetitionStatus::new_with_raw_value(0b1000_1100);
    apply_monitor_cmd(&mut target, &mut comp, MonitorCommand::Competition(CompetitionRequest::Autonomous), real);
    assert_eq!(comp.raw_value(), 0x8000_008E);
    let seen = read_status(&comp, real);
    assert!(seen.autonomous());
    assert!(!seen.disabled());
    assert!(seen.connected());
    assert!(seen.system());
    assert!(!seen.gdb_override());
    assert_eq!(seen.raw_value(), 0b1000_1110);
    assert_eq!(seen.describe(), "autonomous/field-control");
}

#[test]
fn words_are_split_at_unicode_whitespace() {
    assert_eq!(parse_monitor_cmd("\u{a0}stop\u{3000}".as_bytes()), MonitorCommand::Stop);
    assert_eq!(
        parse_monitor_cmd("autostop\u{2003}\u{2003}true".as_bytes()),
        MonitorCommand::Autostop(AutostopArg::Enable)
    );
    assert_eq!(parse_monitor_cmd("\u{85}\u{1680}\n".as_bytes()), MonitorCommand::Help);
}
