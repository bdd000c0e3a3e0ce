//! The answers to GDB `monitor` commands.

use vstd::prelude::*;
use vstd::string::*;

use super::monitor::{AutostopArg, CompetitionRequest, DebugQuery, LogLevel, MonitorCommand};
use crate::sdk::competition::CompetitionStatus;

verus! {

/// What the debug console answers to a command.
#[derive(Debug)]
pub enum MonitorReply {
    /// The given text.
    Text(String),
    /// Stop every motor now, then answer with the text.
    StopMotors(String),
    /// The list of connected devices.
    Devices,
    /// The battery readings.
    Battery,
    /// The report of the primary or the partner controller.
    Controller {
        /// Whether it is the partner controller.
        partner: bool,
    },
    /// The competition status report (see [`competition_report`]).
    Competition,
    /// The software breakpoint slots.
    Breakpoints,
    /// The hardware breakpoint slots.
    Hardware,
    /// Set the maximum log level; no answer.
    SetLogLevel(LogLevel),
    /// A command for the system integration.
    Sys,
    /// The server's description, then the help text.
    Help(String),
    /// No answer.
    Nothing,
}

/// A reply as it is specified: its texts as character sequences.
pub enum ReplyView {
    Text(Seq<char>),
    StopMotors(Seq<char>),
    Devices,
    Battery,
    Controller { partner: bool },
    Competition,
    Breakpoints,
    Hardware,
    SetLogLevel(LogLevel),
    Sys,
    Help(Seq<char>),
    Nothing,
}

impl View for MonitorReply {
    type V = ReplyView;

    open spec fn view(&self) -> ReplyView {
        match self {
            MonitorReply::Text(t) => ReplyView::Text(t@),
            MonitorReply::StopMotors(t) => ReplyView::StopMotors(t@),
            MonitorReply::Devices => ReplyView::Devices,
            MonitorReply::Battery => ReplyView::Battery,
            MonitorReply::Controller { partner } => ReplyView::Controller { partner: *partner },
            MonitorReply::Competition => ReplyView::Competition,
            MonitorReply::Breakpoints => ReplyView::Breakpoints,
            MonitorReply::Hardware => ReplyView::Hardware,
            MonitorReply::SetLogLevel(l) => ReplyView::SetLogLevel(*l),
            MonitorReply::Sys => ReplyView::Sys,
            MonitorReply::Help(t) => ReplyView::Help(t@),
            MonitorReply::Nothing => ReplyView::Nothing,
        }
    }
}

/// The help text of the monitor commands.
pub open spec fn spec_help_text() -> Seq<char> {
    "
Monitor commands:
    help                                Show this help message.
    stop                                Immediately stop all motors right now.
    autostop ?                          Show whether auto-stop on breakpoint is enabled.
    autostop (true | false)             Enable or disable automatic motor stop on breakpoint.
    dev                                 List connected smart devices.
    batt                                View battery status.
    ctrl [partner]                      View controller state, primary (default) or partner.
    comp                                View competition state.
    comp (driver | auton | disabled)    Override competition mode.
    comp (none | fc | switch)           Override competition system.
    comp real                           Stop overriding competition state.
    log [level]                         Set the current log level (off/trace/debug/info/warn/error).
    dbg break                           Show internal software breakpoint status.
    dbg hw                              Show internal hardware debug status.
"@
}

/// The answer to `cmd`: `autostop` is the motor stop setting after the command, and `arg` the
/// command's second word (empty when there is none).
pub open spec fn spec_monitor_reply(cmd: MonitorCommand, autostop: bool, arg: Seq<char>) -> ReplyView {
    match cmd {
        MonitorCommand::Stop => ReplyView::StopMotors("All motors stopped."@),
        MonitorCommand::Autostop(AutostopArg::Enable) => ReplyView::Text(
            "auto motor-stop on breakpoint: ENABLED.\nAll motors will be stopped immediately whenever a breakpoint fires."@,
        ),
        MonitorCommand::Autostop(AutostopArg::Disable) => ReplyView::Text(
            "Auto motor-stop on breakpoint: DISABLED."@,
        ),
        MonitorCommand::Autostop(AutostopArg::Query) => ReplyView::Text(
            "Auto motor-stop on breakpoint: "@ + (if autostop {
                "ENABLED"@
            } else {
                "DISABLED"@
            }) + ".\nUse `monitor autostop true` or `monitor autostop false` to change the state."@,
        ),
        MonitorCommand::Autostop(AutostopArg::Unknown) => ReplyView::Text(
            "Unknown argument '"@ + arg + "'. Use 'true' or 'false' or '?'.\nExample: `monitor autostop true`"@,
        ),
        MonitorCommand::Autostop(AutostopArg::Missing) => ReplyView::Text(
            "Please include valid arguments this includes: \n`autostop ?`                Show whether auto-stop on breakpoint is enabled.\n`autostop (true | false)`   Enable or disable automatic motor stop on breakpoint."@,
        ),
        MonitorCommand::Devices => ReplyView::Devices,
        MonitorCommand::Battery => ReplyView::Battery,
        MonitorCommand::Controller { partner } => ReplyView::Controller { partner },
        MonitorCommand::Competition(CompetitionRequest::Show) => ReplyView::Competition,
        MonitorCommand::Competition(CompetitionRequest::Unknown) => ReplyView::Text(
            "Unknown competition state type"@,
        ),
        MonitorCommand::Competition(_) => ReplyView::Nothing,
        MonitorCommand::Debug(DebugQuery::Missing) => ReplyView::Text("Please specify a subcommand."@),
        MonitorCommand::Debug(DebugQuery::Breakpoints) => ReplyView::Breakpoints,
        MonitorCommand::Debug(DebugQuery::Hardware) => ReplyView::Hardware,
        MonitorCommand::Debug(DebugQuery::Unknown) => ReplyView::Text(
            "Unknown subcommand. See 'monitor help' for more info."@,
        ),
        MonitorCommand::Log(Some(level)) => ReplyView::SetLogLevel(level),
        MonitorCommand::Log(None) => ReplyView::Text("Expected off/trace/debug/info/warn/error."@),
        MonitorCommand::Sys => ReplyView::Sys,
        MonitorCommand::Help => ReplyView::Help(spec_help_text()),
        MonitorCommand::Unknown => ReplyView::Text("Unknown command. See 'monitor help' for more info."@),
    }
}

/// Chooses the answer to `cmd` (see [`spec_monitor_reply`]).
pub fn monitor_reply(cmd: MonitorCommand, autostop: bool, arg: &str) -> (r: MonitorReply)
    ensures
        r@ == spec_monitor_reply(cmd, autostop, arg@),
{
    match cmd {
        MonitorCommand::Stop => MonitorReply::StopMotors(String::from_str("All motors stopped.")),
        MonitorCommand::Autostop(AutostopArg::Enable) => MonitorReply::Text(
            String::from_str(
                "auto motor-stop on breakpoint: ENABLED.\nAll motors will be stopped immediately whenever a breakpoint fires.",
            ),
        ),
        MonitorCommand::Autostop(AutostopArg::Disable) => MonitorReply::Text(
            String::from_str("Auto motor-stop on breakpoint: DISABLED."),
        ),
        MonitorCommand::Autostop(AutostopArg::Query) => {
            let mut t = String::from_str("Auto motor-stop on breakpoint: ");
            t.append(
                if autostop {
                    "ENABLED"
                } else {
                    "DISABLED"
                },
            );
            t.append(".\nUse `monitor autostop true` or `monitor autostop false` to change the state.");
            MonitorReply::Text(t)
        },
        MonitorCommand::Autostop(AutostopArg::Unknown) => {
            let mut t = String::from_str("Unknown argument '");
            t.append(arg);
            t.append("'. Use 'true' or 'false' or '?'.\nExample: `monitor autostop true`");
            MonitorReply::Text(t)
        },
        MonitorCommand::Autostop(AutostopArg::Missing) => MonitorReply::Text(
            String::from_str(
                "Please include valid arguments this includes: \n`autostop ?`                Show whether auto-stop on breakpoint is enabled.\n`autostop (true | false)`   Enable or disable automatic motor stop on breakpoint.",
            ),
        ),
        MonitorCommand::Devices => MonitorReply::Devices,
        MonitorCommand::Battery => MonitorReply::Battery,
        MonitorCommand::Controller { partner } => MonitorReply::Controller { partner },
        MonitorCommand::Competition(CompetitionRequest::Show) => MonitorReply::Competition,
        MonitorCommand::Competition(CompetitionRequest::Unknown) => MonitorReply::Text(
            String::from_str("Unknown competition state type"),
        ),
        MonitorCommand::Competition(_) => MonitorReply::Nothing,
        MonitorCommand::Debug(DebugQuery::Missing) => MonitorReply::Text(String::from_str("Please specify a subcommand.")),
        MonitorCommand::Debug(DebugQuery::Breakpoints) => MonitorReply::Breakpoints,
        MonitorCommand::Debug(DebugQuery::Hardware) => MonitorReply::Hardware,
        MonitorCommand::Debug(DebugQuery::Unknown) => MonitorReply::Text(
            String::from_str("Unknown subcommand. See 'monitor help' for more info."),
        ),
        MonitorCommand::Log(Some(level)) => MonitorReply::SetLogLevel(level),
        MonitorCommand::Log(None) => MonitorReply::Text(String::from_str("Expected off/trace/debug/info/warn/error.")),
        MonitorCommand::Sys => MonitorReply::Sys,
        MonitorCommand::Help => MonitorReply::Help(
            String::from_str(
                "
Monitor commands:
    help                                Show this help message.
    stop                                Immediately stop all motors right now.
    autostop ?                          Show whether auto-stop on breakpoint is enabled.
    autostop (true | false)             Enable or disable automatic motor stop on breakpoint.
    dev                                 List connected smart devices.
    batt                                View battery status.
    ctrl [partner]                      View controller state, primary (default) or partner.
    comp                                View competition state.
    comp (driver | auton | disabled)    Override competition mode.
    comp (none | fc | switch)           Override competition system.
    comp real                           Stop overriding competition state.
    log [level]                         Set the current log level (off/trace/debug/info/warn/error).
    dbg break                           Show internal software breakpoint status.
    dbg hw                              Show internal hardware debug status.
",
            ),
        ),
        MonitorCommand::Unknown => MonitorReply::Text(
            String::from_str("Unknown command. See 'monitor help' for more info."),
        ),
    }
}

/// Each command that shows readings is answered with its own readings, whatever the motor stop
/// setting and the second word: `batt` with the battery, `dev` with the device list, `ctrl` with
/// the controller it names, `comp` alone with the competition report, `dbg break` with the
/// software breakpoints and `dbg hw` with the hardware debug state. `stop` stops the motors,
/// a log level is set without an answer, and a competition override is answered with nothing.
/// The other commands are answered with these texts.
pub proof fn lemma_reply_kinds(autostop: bool, arg: Seq<char>)
    ensures
        spec_monitor_reply(MonitorCommand::Battery, autostop, arg) == ReplyView::Battery,
        spec_monitor_reply(MonitorCommand::Devices, autostop, arg) == ReplyView::Devices,
        spec_monitor_reply(MonitorCommand::Controller { partner: false }, autostop, arg)
            == (ReplyView::Controller { partner: false }),
        spec_monitor_reply(MonitorCommand::Controller { partner: true }, autostop, arg)
            == (ReplyView::Controller { partner: true }),
        spec_monitor_reply(MonitorCommand::Competition(CompetitionRequest::Show), autostop, arg)
            == ReplyView::Competition,
        spec_monitor_reply(MonitorCommand::Debug(DebugQuery::Breakpoints), autostop, arg)
            == ReplyView::Breakpoints,
        spec_monitor_reply(MonitorCommand::Debug(DebugQuery::Hardware), autostop, arg) == ReplyView::Hardware,
        spec_monitor_reply(MonitorCommand::Stop, autostop, arg) == ReplyView::StopMotors("All motors stopped."@),
        spec_monitor_reply(MonitorCommand::Sys, autostop, arg) == ReplyView::Sys,
        spec_monitor_reply(MonitorCommand::Help, autostop, arg) is Help,
        spec_monitor_reply(MonitorCommand::Autostop(AutostopArg::Enable), autostop, arg) == ReplyView::Text(
            "auto motor-stop on breakpoint: ENABLED.\nAll motors will be stopped immediately whenever a breakpoint fires."@,
        ),
        spec_monitor_reply(MonitorCommand::Autostop(AutostopArg::Disable), autostop, arg) == ReplyView::Text(
            "Auto motor-stop on breakpoint: DISABLED."@,
        ),
        spec_monitor_reply(MonitorCommand::Autostop(AutostopArg::Query), true, arg) == ReplyView::Text(
            "Auto motor-stop on breakpoint: "@ + "ENABLED"@
                + ".\nUse `monitor autostop true` or `monitor autostop false` to change the state."@,
        ),
        spec_monitor_reply(MonitorCommand::Autostop(AutostopArg::Query), false, arg) == ReplyView::Text(
            "Auto motor-stop on breakpoint: "@ + "DISABLED"@
                + ".\nUse `monitor autostop true` or `monitor autostop false` to change the state."@,
        ),
        spec_monitor_reply(MonitorCommand::Autostop(AutostopArg::Unknown), autostop, arg) == ReplyView::Text(
            "Unknown argument '"@ + arg + "'. Use 'true' or 'false' or '?'.\nExample: `monitor autostop true`"@,
        ),
        spec_monitor_reply(MonitorCommand::Competition(CompetitionRequest::Unknown), autostop, arg)
            == ReplyView::Text("Unknown competition state type"@),
        spec_monitor_reply(MonitorCommand::Debug(DebugQuery::Missing), autostop, arg)
            == ReplyView::Text("Please specify a subcommand."@),
        spec_monitor_reply(MonitorCommand::Debug(DebugQuery::Unknown), autostop, arg)
            == ReplyView::Text("Unknown subcommand. See 'monitor help' for more info."@),
        spec_monitor_reply(MonitorCommand::Log(None), autostop, arg)
            == ReplyView::Text("Expected off/trace/debug/info/warn/error."@),
        spec_monitor_reply(MonitorCommand::Unknown, autostop, arg)
            == ReplyView::Text("Unknown command. See 'monitor help' for more info."@),
        forall|l: LogLevel|
            #[trigger] spec_monitor_reply(MonitorCommand::Log(Some(l)), autostop, arg) == ReplyView::SetLogLevel(l),
        forall|req: CompetitionRequest|
            req != CompetitionRequest::Show && req != CompetitionRequest::Unknown
                ==> #[trigger] spec_monitor_reply(MonitorCommand::Competition(req), autostop, arg)
                == ReplyView::Nothing,
{
}

/// The motor stop setting is read only by `autostop ?`, and the second word only by an unknown
/// `autostop` argument: every other command is answered the same whatever they are.
pub proof fn lemma_reply_reads_only_its_inputs(cmd: MonitorCommand, a1: bool, a2: bool, w1: Seq<char>, w2: Seq<char>)
    ensures
        cmd != MonitorCommand::Autostop(AutostopArg::Query) && cmd != MonitorCommand::Autostop(AutostopArg::Unknown)
            ==> spec_monitor_reply(cmd, a1, w1) == spec_monitor_reply(cmd, a2, w2),
        spec_monitor_reply(MonitorCommand::Autostop(AutostopArg::Query), a1, w1)
            == spec_monitor_reply(MonitorCommand::Autostop(AutostopArg::Query), a1, w2),
        spec_monitor_reply(MonitorCommand::Autostop(AutostopArg::Unknown), a1, w1)
            == spec_monitor_reply(MonitorCommand::Autostop(AutostopArg::Unknown), a2, w1),
{
}

/// The competition status report: the override and the actual status when one is set, the actual
/// status alone otherwise (one line each).
pub open spec fn spec_competition_report(overridden: Option<CompetitionStatus>, actual: CompetitionStatus) -> Seq<char> {
    match overridden {
        Some(o) => "override: "@ + o.spec_mode_name() + "/"@ + o.spec_system_name() + "\nreal: "@
            + actual.spec_mode_name() + "/"@ + actual.spec_system_name(),
        None => "status: "@ + actual.spec_mode_name() + "/"@ + actual.spec_system_name(),
    }
}

/// Returns the competition status report.
pub fn competition_report(overridden: Option<CompetitionStatus>, actual: CompetitionStatus) -> (r: String)
    ensures
        r@ == spec_competition_report(overridden, actual),
{
    match overridden {
        Some(o) => {
            let mut t = String::from_str("override: ");
            t.append(o.describe().as_str());
            t.append("\nreal: ");
            t.append(actual.describe().as_str());
            t
        },
        None => {
            let mut t = String::from_str("status: ");
            t.append(actual.describe().as_str());
            t
        },
    }
}

} // verus!
