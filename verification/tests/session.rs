use v5gdb::cpu::instruction::Instruction;
use v5gdb::debugger::{
    function_entry, has_client, is_interrupt_request, ClientState, DebugSession, DebuggerConfig,
    InternalBreakpoint, StopAction, StopReason, CTRL_C,
};
use v5gdb::gdb_target::breakpoint::BreakpointError;
use v5gdb::gdb_target::{MonitorStatus, V5Target};

fn session_with_exit_break(exit_func: u32) -> DebugSession {
    let mut session = DebugSession::new(V5Target::new(4, 2));
    session
        .register_internal_breakpoints(exit_func, Instruction::Thumb16(0xB510), true)
        .unwrap();
    session
}

#[test]
fn config_defaults_and_applies() {
    assert!(!DebuggerConfig::default().stop_motors_on_break);
    let mut session = DebugSession::new(V5Target::new(1, 1));
    session.apply_config(&DebuggerConfig { stop_motors_on_break: true });
    assert!(session.target.stop_motors_on_break);
}

#[test]
fn function_entry_strips_thumb_bit() {
    assert_eq!(function_entry(0x0380_1235), (0x0380_1234, true));
    assert_eq!(function_entry(0x0380_1234), (0x0380_1234, false));
}

#[test]
fn internal_breakpoint_is_placed_at_function_entry() {
    let session = session_with_exit_break(0x0380_1001);
    assert_eq!(session.internal_breaks, Some((InternalBreakpoint::SystemExitRequest, 0x0380_1000)));
    let b = session.target.breakpoint(0).unwrap();
    assert_eq!(b.addr, 0x0380_1000);
    assert!(b.reason.internal && !b.reason.user);
}

#[test]
fn internal_breakpoint_placement_can_fail() {
    let mut session = DebugSession::new(V5Target::new(4, 2));
    let res = session.register_internal_breakpoints(0x0380_1002, Instruction::Arm(0), true);
    assert_eq!(res, Err(BreakpointError::NotAlignedCorrectly));
    assert_eq!(session.internal_breaks, None);
}

#[test]
fn exit_request_without_client_resumes() {
    let mut session = session_with_exit_break(0x0380_1001);
    session.target.set_breakpoints_ignored(true);
    let action = session.handle_stop(StopReason::TrackedSoftwareBreak { id: 0 }, 0x0380_1000, ClientState::Uninitialized);
    assert_eq!(action, StopAction::Resume);
    assert_eq!(session.target.monitor_status, MonitorStatus::Halted);
    assert!(session.target.breakpoint(0).is_none());
}

#[test]
fn exit_request_with_client_enters_monitor_until_disconnect() {
    let mut session = session_with_exit_break(0x0380_1001);
    session.target.set_breakpoints_ignored(true);
    let action = session.handle_stop(StopReason::TrackedSoftwareBreak { id: 0 }, 0x0380_1000, ClientState::Connected);
    assert_eq!(action, StopAction::EnterMonitor);
    assert_eq!(session.target.monitor_status, MonitorStatus::Exiting);
    assert!(session.console_active());
    session.after_client_disconnected();
    assert_eq!(session.target.monitor_status, MonitorStatus::ResumingProgram);
    assert!(!session.console_active());
}

#[test]
fn user_breakpoints_always_enter_monitor() {
    let mut session = session_with_exit_break(0x0380_1001);
    session
        .target
        .register_sw_breakpoint(0x0380_1000, Instruction::Thumb16(0xB510), false, true)
        .unwrap();
    session
        .target
        .register_sw_breakpoint(0x0380_2000, Instruction::Arm(0), false, true)
        .unwrap();
    session.target.set_breakpoints_ignored(true);
    let action = session.handle_stop(StopReason::TrackedSoftwareBreak { id: 1 }, 0x0380_2000, ClientState::Uninitialized);
    assert_eq!(action, StopAction::EnterMonitor);
    // Both user and internal: the handler runs, the user still sees the stop.
    let action = session.handle_stop(StopReason::TrackedSoftwareBreak { id: 0 }, 0x0380_1000, ClientState::Uninitialized);
    assert_eq!(action, StopAction::EnterMonitor);
    let b = session.target.breakpoint(0).unwrap();
    assert!(b.reason.user && !b.reason.internal);
}

#[test]
fn other_stops_enter_monitor() {
    let mut session = DebugSession::new(V5Target::new(1, 1));
    assert_eq!(session.handle_stop(StopReason::Other, 0, ClientState::Connected), StopAction::EnterMonitor);
}

#[test]
fn internal_handler_ignores_other_addresses() {
    let mut session = session_with_exit_break(0x0380_1001);
    session.target.set_breakpoints_ignored(true);
    assert_eq!(session.handle_internal_breakpoint(0x0380_1004, ClientState::Connected), StopAction::Resume);
    assert!(session.target.breakpoint(0).is_some());
    assert_eq!(session.target.monitor_status, MonitorStatus::Halted);
}

#[test]
fn monitor_status_transitions() {
    let mut session = DebugSession::new(V5Target::new(1, 1));
    session.after_client_disconnected();
    assert_eq!(session.target.monitor_status, MonitorStatus::Halted);
    session.after_stop_reported(false);
    assert_eq!(session.target.monitor_status, MonitorStatus::Halted);
    session.after_stop_reported(true);
    assert_eq!(session.target.monitor_status, MonitorStatus::ResumingProgram);
}

#[test]
fn client_and_interrupt_checks() {
    assert!(has_client(ClientState::Connected));
    assert!(!has_client(ClientState::Disconnected));
    assert!(!has_client(ClientState::Uninitialized));
    assert!(is_interrupt_request(CTRL_C));
    assert!(is_interrupt_request(0x03));
    assert!(!is_interrupt_request(b'$'));
}

#[test]
fn stop_reason_names_the_tracked_breakpoint() {
    let mut session = session_with_exit_break(0x0380_1001);
    session
        .target
        .register_sw_breakpoint(0x0380_2000, Instruction::Arm(0xE1A0_0000), false, true)
        .unwrap();
    assert_eq!(session.stop_reason_at(0x0380_1000), StopReason::TrackedSoftwareBreak { id: 0 });
    assert_eq!(session.stop_reason_at(0x0380_2000), StopReason::TrackedSoftwareBreak { id: 1 });
    assert_eq!(session.stop_reason_at(0x0380_2004), StopReason::Other);
    let reason = session.stop_reason_at(0x0380_2000);
    assert_eq!(session.handle_stop(reason, 0x0380_2000, ClientState::Connected), StopAction::EnterMonitor);
}
