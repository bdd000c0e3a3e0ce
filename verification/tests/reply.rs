use v5gdb::gdb_target::monitor::{parse_monitor_cmd, LogLevel, MonitorCommand};
use v5gdb::gdb_target::reply::{competition_report, monitor_reply, MonitorReply};
use v5gdb::sdk::competition::CompetitionStatus;

fn text_of(r: MonitorReply) -> String {
    match r {
        MonitorReply::Text(t) => t,
        other => panic!("expected a text answer, got {other:?}"),
    }
}

#[test]
fn fixed_answers() {
    match monitor_reply(parse_monitor_cmd(b"stop"), false, "") {
        MonitorReply::StopMotors(t) => assert_eq!(t, "All motors stopped."),
        other => panic!("{other:?}"),
    }
    assert_eq!(
        text_of(monitor_reply(parse_monitor_cmd(b"autostop ?"), true, "?")),
        "Auto motor-stop on breakpoint: ENABLED.\nUse `monitor autostop true` or `monitor autostop false` to change the state."
    );
    assert_eq!(
        text_of(monitor_reply(parse_monitor_cmd(b"autostop false"), false, "false")),
        "Auto motor-stop on breakpoint: DISABLED."
    );
    assert_eq!(
        text_of(monitor_reply(parse_monitor_cmd(b"autostop maybe"), false, "maybe")),
        "Unknown argument 'maybe'. Use 'true' or 'false' or '?'.\nExample: `monitor autostop true`"
    );
    assert_eq!(text_of(monitor_reply(parse_monitor_cmd(b"dbg"), false, "")), "Please specify a subcommand.");
    assert_eq!(
        text_of(monitor_reply(parse_monitor_cmd(b"log nope"), false, "nope")),
        "Expected off/trace/debug/info/warn/error."
    );
    assert_eq!(
        text_of(monitor_reply(MonitorCommand::Unknown, false, "")),
        "Unknown command. See 'monitor help' for more info."
    );
}

#[test]
fn answers_that_need_readings() {
    assert!(matches!(monitor_reply(parse_monitor_cmd(b"dev"), false, ""), MonitorReply::Devices));
    assert!(matches!(monitor_reply(parse_monitor_cmd(b"ctrl p"), false, "p"), MonitorReply::Controller { partner: true }));
    assert!(matches!(monitor_reply(parse_monitor_cmd(b"comp"), false, ""), MonitorReply::Competition));
    assert!(matches!(monitor_reply(parse_monitor_cmd(b"comp fc"), false, "fc"), MonitorReply::Nothing));
    assert!(matches!(monitor_reply(parse_monitor_cmd(b"dbg hw"), false, "hw"), MonitorReply::Hardware));
    assert!(matches!(
        monitor_reply(parse_monitor_cmd(b"log warn"), false, "warn"),
        MonitorReply::SetLogLevel(LogLevel::Warn)
    ));
    match monitor_reply(parse_monitor_cmd(b"help"), false, "") {
        MonitorReply::Help(h) => assert!(h.contains("autostop (true | false)")),
        other => panic!("{other:?}"),
    }
}

#[test]
fn competition_report_lines() {
    let actual = CompetitionStatus::new_with_raw_value(0b1101);
    let overridden = CompetitionStatus::new_with_raw_value(0b0010);
    assert_eq!(competition_report(None, actual), "status: disabled/field-control");
    assert_eq!(
        competition_report(Some(overridden), actual),
        "override: autonomous/disconnected\nreal: disabled/field-control"
    );
}
