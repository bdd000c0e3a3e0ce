//! GDB `monitor` commands: parsing of the command line and the state changes they make.

use core::str::FromStr;

use vstd::prelude::*;
use vstd::string::*;
use vstd::utf8::{decode_utf8, valid_utf8};

use super::V5Target;
use crate::text::{lemma_blank_has_no_words, spec_is_whitespace, spec_words, str_eq};
use crate::sdk::competition::{
    lemma_with_bit, set_override, spec_bit, spec_with_bit, CompetitionOverride, CompetitionStatus, AUTONOMOUS_BIT,
    CONNECTED_BIT, DISABLED_BIT, GDB_OVERRIDE_BIT, SYSTEM_BIT,
};

verus! {

/// The argument of `monitor autostop`.
#[derive(Debug, Clone, Copy, PartialEq, Eq, Structural)]
pub enum AutostopArg {
    /// `true`: stop every motor whenever a breakpoint fires.
    Enable,
    /// `false`: leave the motors alone.
    Disable,
    /// `?`: show the setting.
    Query,
    /// Anything else (the word is the command's second one).
    Unknown,
    /// No argument.
    Missing,
}

/// The argument of `monitor comp`.
#[derive(Debug, Clone, Copy, PartialEq, Eq, Structural)]
pub enum CompetitionRequest {
    /// `driver`, `op` or `opcontrol`: override the mode to driver control.
    Driver,
    /// `auto`, `auton` or `autonomous`: override the mode to autonomous.
    Autonomous,
    /// `dis` or `disabled`: override the mode to disabled.
    Disabled,
    /// `none` or `disconnected`: override the system to none.
    NoSystem,
    /// `fc` or `field-control`: override the system to field control.
    FieldControl,
    /// `switch`: override the system to a competition switch.
    Switch,
    /// `real`: stop overriding.
    Real,
    /// Any other argument.
    Unknown,
    /// No argument: show the status.
    Show,
}

/// The argument of `monitor dbg`.
#[derive(Debug, Clone, Copy, PartialEq, Eq, Structural)]
pub enum DebugQuery {
    /// `break`: show the software breakpoints.
    Breakpoints,
    /// `hw`: show the hardware debug state.
    Hardware,
    /// Any other argument.
    Unknown,
    /// No argument.
    Missing,
}

/// A parsed `monitor` command.
#[derive(Debug, Clone, Copy, PartialEq, Eq, Structural)]
pub enum MonitorCommand {
    /// `stop`: stop every motor now.
    Stop,
    /// `autostop [arg]`.
    Autostop(AutostopArg),
    /// `dev` or `devices`: list the smart devices.
    Devices,
    /// `batt` or `battery`: show the battery.
    Battery,
    /// `ctrl [partner | p]`: show the primary or the partner controller.
    Controller {
        /// Whether the partner controller was asked for.
        partner: bool,
    },
    /// `comp [arg]`.
    Competition(CompetitionRequest),
    /// `dbg [arg]`.
    Debug(DebugQuery),
    /// `log [level]`: set the log level; `None` when the level is missing or not a level name.
    Log(Option<LogLevel>),
    /// `sys ...`: a command for the system integration (the remaining words).
    Sys,
    /// `?`, `h` or `help`, and an empty or malformed command line.
    Help,
    /// Anything else.
    Unknown,
}

/// A maximum log level, as `monitor log` sets it (the levels of `log::LevelFilter`).
#[derive(Debug, Clone, Copy, PartialEq, Eq, Structural)]
pub enum LogLevel {
    /// No logging.
    Off,
    /// Errors only.
    Error,
    /// Warnings and errors.
    Warn,
    /// Informational messages and above.
    Info,
    /// Debug messages and above.
    Debug,
    /// Everything.
    Trace,
}

/// The code of a character with an ASCII upper-case letter turned into lower case.
pub open spec fn spec_ascii_lower(c: char) -> u32 {
    if 'A' <= c <= 'Z' {
        (c as u32 + 32) as u32
    } else {
        c as u32
    }
}

/// Whether two strings are equal when ASCII letters are compared without regard to case.
pub open spec fn spec_eq_ignore_ascii_case(s: Seq<char>, name: Seq<char>) -> bool {
    &&& s.len() == name.len()
    &&& forall|i: int| 0 <= i < s.len() ==> spec_ascii_lower(#[trigger] s[i]) == spec_ascii_lower(name[i])
}

/// The level a word names: one of `OFF`, `ERROR`, `WARN`, `INFO`, `DEBUG` and `TRACE`, in any
/// ASCII case.
pub open spec fn spec_log_level_from_str(s: Seq<char>) -> Option<LogLevel> {
    if spec_eq_ignore_ascii_case(s, "OFF"@) {
        Some(LogLevel::Off)
    } else if spec_eq_ignore_ascii_case(s, "ERROR"@) {
        Some(LogLevel::Error)
    } else if spec_eq_ignore_ascii_case(s, "WARN"@) {
        Some(LogLevel::Warn)
    } else if spec_eq_ignore_ascii_case(s, "INFO"@) {
        Some(LogLevel::Info)
    } else if spec_eq_ignore_ascii_case(s, "DEBUG"@) {
        Some(LogLevel::Debug)
    } else if spec_eq_ignore_ascii_case(s, "TRACE"@) {
        Some(LogLevel::Trace)
    } else {
        None
    }
}

/// Calls `log::LevelFilter::from_str` and tells the resulting level apart, with the parse error
/// turned into `None`. `from_str` compares the word with each level name, `OFF` first, by
/// `eq_ignore_ascii_case`; the contract states that comparison over characters, which agrees with
/// the byte comparison because the names are ASCII.
#[verifier::external_body]
fn level_filter_from_str(s: &str) -> (r: Option<LogLevel>)
    ensures
        r == spec_log_level_from_str(s@),
{
    match log::LevelFilter::from_str(s) {
        Ok(log::LevelFilter::Off) => Some(LogLevel::Off),
        Ok(log::LevelFilter::Error) => Some(LogLevel::Error),
        Ok(log::LevelFilter::Warn) => Some(LogLevel::Warn),
        Ok(log::LevelFilter::Info) => Some(LogLevel::Info),
        Ok(log::LevelFilter::Debug) => Some(LogLevel::Debug),
        Ok(log::LevelFilter::Trace) => Some(LogLevel::Trace),
        Err(_) => None,
    }
}

/// The command a list of words names.
pub open spec fn spec_parse_monitor_args(words: Seq<Seq<char>>) -> MonitorCommand {
    let cmd = if words.len() == 0 {
        "help"@
    } else {
        words[0]
    };
    let has_arg = words.len() > 1;
    let arg = words[1];
    if cmd == "stop"@ {
        MonitorCommand::Stop
    } else if cmd == "autostop"@ {
        MonitorCommand::Autostop(
            if !has_arg {
                AutostopArg::Missing
            } else if arg == "true"@ {
                AutostopArg::Enable
            } else if arg == "false"@ {
                AutostopArg::Disable
            } else if arg == "?"@ {
                AutostopArg::Query
            } else {
                AutostopArg::Unknown
            },
        )
    } else if cmd == "dev"@ || cmd == "devices"@ {
        MonitorCommand::Devices
    } else if cmd == "batt"@ || cmd == "battery"@ {
        MonitorCommand::Battery
    } else if cmd == "ctrl"@ {
        MonitorCommand::Controller { partner: has_arg && (arg == "partner"@ || arg == "p"@) }
    } else if cmd == "comp"@ {
        MonitorCommand::Competition(
            if !has_arg {
                CompetitionRequest::Show
            } else if arg == "driver"@ || arg == "op"@ || arg == "opcontrol"@ {
                CompetitionRequest::Driver
            } else if arg == "auto"@ || arg == "auton"@ || arg == "autonomous"@ {
                CompetitionRequest::Autonomous
            } else if arg == "dis"@ || arg == "disabled"@ {
                CompetitionRequest::Disabled
            } else if arg == "none"@ || arg == "disconnected"@ {
                CompetitionRequest::NoSystem
            } else if arg == "fc"@ || arg == "field-control"@ {
                CompetitionRequest::FieldControl
            } else if arg == "switch"@ {
                CompetitionRequest::Switch
            } else if arg == "real"@ {
                CompetitionRequest::Real
            } else {
                CompetitionRequest::Unknown
            },
        )
    } else if cmd == "dbg"@ {
        MonitorCommand::Debug(
            if !has_arg {
                DebugQuery::Missing
            } else if arg == "break"@ {
                DebugQuery::Breakpoints
            } else if arg == "hw"@ {
                DebugQuery::Hardware
            } else {
                DebugQuery::Unknown
            },
        )
    } else if cmd == "log"@ {
        MonitorCommand::Log(
            if has_arg {
                spec_log_level_from_str(arg)
            } else {
                None
            },
        )
    } else if cmd == "sys"@ {
        MonitorCommand::Sys
    } else if cmd == "?"@ || cmd == "h"@ || cmd == "help"@ {
        MonitorCommand::Help
    } else {
        MonitorCommand::Unknown
    }
}

/// Parses the words of a `monitor` command line.
pub fn parse_monitor_args(words: &Vec<&str>) -> (r: MonitorCommand)
    ensures
        r == spec_parse_monitor_args(words.deep_view()),
{
    let ghost ws = words.deep_view();
    let cmd: &str = if words.len() == 0 {
        "help"
    } else {
        words[0]
    };
    assert(cmd@ == if ws.len() == 0 { "help"@ } else { ws[0] });
    let has_arg = words.len() > 1;
    let arg: &str = if has_arg {
        words[1]
    } else {
        ""
    };
    assert(has_arg ==> arg@ == ws[1]);
    if str_eq(cmd, "stop") {
        MonitorCommand::Stop
    } else if str_eq(cmd, "autostop") {
        MonitorCommand::Autostop(
            if !has_arg {
                AutostopArg::Missing
            } else if str_eq(arg, "true") {
                AutostopArg::Enable
            } else if str_eq(arg, "false") {
                AutostopArg::Disable
            } else if str_eq(arg, "?") {
                AutostopArg::Query
            } else {
                AutostopArg::Unknown
            },
        )
    } else if str_eq(cmd, "dev") || str_eq(cmd, "devices") {
        MonitorCommand::Devices
    } else if str_eq(cmd, "batt") || str_eq(cmd, "battery") {
        MonitorCommand::Battery
    } else if str_eq(cmd, "ctrl") {
        MonitorCommand::Controller { partner: has_arg && (str_eq(arg, "partner") || str_eq(arg, "p")) }
    } else if str_eq(cmd, "comp") {
        MonitorCommand::Competition(
            if !has_arg {
                CompetitionRequest::Show
            } else if str_eq(arg, "driver") || str_eq(arg, "op") || str_eq(arg, "opcontrol") {
                CompetitionRequest::Driver
            } else if str_eq(arg, "auto") || str_eq(arg, "auton") || str_eq(arg, "autonomous") {
                CompetitionRequest::Autonomous
            } else if str_eq(arg, "dis") || str_eq(arg, "disabled") {
                CompetitionRequest::Disabled
            } else if str_eq(arg, "none") || str_eq(arg, "disconnected") {
                CompetitionRequest::NoSystem
            } else if str_eq(arg, "fc") || str_eq(arg, "field-control") {
                CompetitionRequest::FieldControl
            } else if str_eq(arg, "switch") {
                CompetitionRequest::Switch
            } else if str_eq(arg, "real") {
                CompetitionRequest::Real
            } else {
                CompetitionRequest::Unknown
            },
        )
    } else if str_eq(cmd, "dbg") {
        MonitorCommand::Debug(
            if !has_arg {
                DebugQuery::Missing
            } else if str_eq(arg, "break") {
                DebugQuery::Breakpoints
            } else if str_eq(arg, "hw") {
                DebugQuery::Hardware
            } else {
                DebugQuery::Unknown
            },
        )
    } else if str_eq(cmd, "log") {
        MonitorCommand::Log(
            if has_arg {
                level_filter_from_str(arg)
            } else {
                None
            },
        )
    } else if str_eq(cmd, "sys") {
        MonitorCommand::Sys
    } else if str_eq(cmd, "?") || str_eq(cmd, "h") || str_eq(cmd, "help") {
        MonitorCommand::Help
    } else {
        MonitorCommand::Unknown
    }
}

/// Calls `str::split_whitespace` and collects the words: the maximal runs of characters that are
/// not whitespace (`char::is_whitespace`), in order.
#[verifier::external_body]
fn split_whitespace(s: &str) -> (r: Vec<&str>)
    ensures
        r.deep_view() == spec_words(s@),
{
    s.split_whitespace().collect()
}

/// Calls `core::str::from_utf8`, with its error turned into `None`: the bytes are accepted exactly
/// when they are valid UTF-8, and then read as the characters they encode.
#[verifier::external_body]
fn str_from_utf8(bytes: &[u8]) -> (r: Option<&str>)
    ensures
        r is Some <==> valid_utf8(bytes@),
        r matches Some(s) ==> s@ == decode_utf8(bytes@),
{
    core::str::from_utf8(bytes).ok()
}

/// The words of a `monitor` command line: its whitespace-separated words when it is valid UTF-8,
/// none otherwise.
pub open spec fn spec_monitor_args(data: Seq<u8>) -> Seq<Seq<char>> {
    if valid_utf8(data) {
        spec_words(decode_utf8(data))
    } else {
        Seq::empty()
    }
}

/// Splits a `monitor` command line into its words. A line that is not valid UTF-8 has none.
pub fn monitor_args(data: &[u8]) -> (r: Vec<&str>)
    ensures
        r.deep_view() == spec_monitor_args(data@),
{
    match str_from_utf8(data) {
        Some(s) => split_whitespace(s),
        None => {
            let r: Vec<&str> = Vec::new();
            assert(r.deep_view() =~= Seq::<Seq<char>>::empty());
            r
        },
    }
}

/// A command line of whitespace only (or none) asks for help.
pub proof fn lemma_blank_line_is_help(s: Seq<char>)
    requires
        forall|i: int| 0 <= i < s.len() ==> spec_is_whitespace(#[trigger] s[i]),
    ensures
        spec_parse_monitor_args(spec_words(s)) == MonitorCommand::Help,
{
    lemma_blank_has_no_words(s);
    reveal_strlit("help");
    reveal_strlit("stop");
    reveal_strlit("autostop");
    reveal_strlit("dev");
    reveal_strlit("devices");
    reveal_strlit("batt");
    reveal_strlit("battery");
    reveal_strlit("ctrl");
    reveal_strlit("comp");
    reveal_strlit("dbg");
    reveal_strlit("log");
    reveal_strlit("sys");
    reveal_strlit("?");
    reveal_strlit("h");
    let h = "help"@;
    assert(h != "stop"@ && h != "batt"@ && h != "ctrl"@ && h != "comp"@) by {
        assert(h[0] != "stop"@[0] && h[0] != "batt"@[0] && h[0] != "ctrl"@[0] && h[0] != "comp"@[0]);
    }
    assert(h != "autostop"@ && h != "dev"@ && h != "devices"@ && h != "battery"@) by {
        assert(h.len() != "autostop"@.len() && h.len() != "dev"@.len() && h.len() != "devices"@.len());
        assert(h.len() != "battery"@.len());
    }
    assert(h != "dbg"@ && h != "log"@ && h != "sys"@) by {
        assert(h.len() != "dbg"@.len() && h.len() != "log"@.len() && h.len() != "sys"@.len());
    }
}

/// Parses a `monitor` command line as GDB sends it. An empty or malformed line asks for help.
pub fn parse_monitor_cmd(data: &[u8]) -> (r: MonitorCommand)
    ensures
        r == spec_parse_monitor_args(spec_monitor_args(data@)),
{
    let words = monitor_args(data);
    parse_monitor_args(&words)
}

impl CompetitionRequest {
    /// The change a request makes to the override, given the status user code currently sees:
    /// `Some(Some(s))` overrides with `s`, `Some(None)` stops overriding, `None` changes nothing.
    pub open spec fn spec_apply(self, current: CompetitionStatus) -> Option<Option<u32>> {
        let raw = current.spec_raw();
        match self {
            CompetitionRequest::Driver => Some(
                Some(spec_with_bit(spec_with_bit(raw, DISABLED_BIT, false), AUTONOMOUS_BIT, false)),
            ),
            CompetitionRequest::Autonomous => Some(
                Some(spec_with_bit(spec_with_bit(raw, DISABLED_BIT, false), AUTONOMOUS_BIT, true)),
            ),
            CompetitionRequest::Disabled => Some(
                Some(spec_with_bit(spec_with_bit(raw, DISABLED_BIT, true), AUTONOMOUS_BIT, false)),
            ),
            CompetitionRequest::NoSystem => Some(
                Some(spec_with_bit(spec_with_bit(raw, CONNECTED_BIT, false), SYSTEM_BIT, false)),
            ),
            CompetitionRequest::FieldControl => Some(
                Some(spec_with_bit(spec_with_bit(raw, CONNECTED_BIT, true), SYSTEM_BIT, true)),
            ),
            CompetitionRequest::Switch => Some(
                Some(spec_with_bit(spec_with_bit(raw, CONNECTED_BIT, true), SYSTEM_BIT, false)),
            ),
            CompetitionRequest::Real => Some(None),
            CompetitionRequest::Unknown | CompetitionRequest::Show => None,
        }
    }

    /// Returns the change a request makes to the override (see [`Self::spec_apply`]).
    pub fn apply(self, current: CompetitionStatus) -> (r: Option<Option<CompetitionStatus>>)
        ensures
            match self.spec_apply(current) {
                Some(Some(raw)) => r matches Some(Some(s)) && s.spec_raw() == raw,
                Some(None) => r == Some(None::<CompetitionStatus>),
                None => r is None,
            },
    {
        match self {
            CompetitionRequest::Driver => Some(Some(current.with_disabled(false).with_autonomous(false))),
            CompetitionRequest::Autonomous => Some(Some(current.with_disabled(false).with_autonomous(true))),
            CompetitionRequest::Disabled => Some(Some(current.with_disabled(true).with_autonomous(false))),
            CompetitionRequest::NoSystem => Some(Some(current.with_connected(false).with_system(false))),
            CompetitionRequest::FieldControl => Some(Some(current.with_connected(true).with_system(true))),
            CompetitionRequest::Switch => Some(Some(current.with_connected(true).with_system(false))),
            CompetitionRequest::Real => Some(None),
            CompetitionRequest::Unknown | CompetitionRequest::Show => None,
        }
    }
}

/// The mode flags (disabled, autonomous) a request sets, if it is a mode request.
pub open spec fn spec_requested_mode(req: CompetitionRequest) -> Option<(bool, bool)> {
    match req {
        CompetitionRequest::Driver => Some((false, false)),
        CompetitionRequest::Autonomous => Some((false, true)),
        CompetitionRequest::Disabled => Some((true, false)),
        _ => None,
    }
}

/// The system flags (connected, field control) a request sets, if it is a system request.
pub open spec fn spec_requested_system(req: CompetitionRequest) -> Option<(bool, bool)> {
    match req {
        CompetitionRequest::NoSystem => Some((false, false)),
        CompetitionRequest::FieldControl => Some((true, true)),
        CompetitionRequest::Switch => Some((true, false)),
        _ => None,
    }
}

/// A competition request is what user code then sees: the stored override is marked as set, and
/// the status read back from it has the requested mode or system while every other flag (and
/// every other bit) is the one of the status the request started from.
pub proof fn lemma_competition_request_seen(req: CompetitionRequest, current: CompetitionStatus)
    requires
        spec_requested_mode(req) is Some || spec_requested_system(req) is Some,
    ensures
        req.spec_apply(current) matches Some(Some(raw)) && {
            let stored = spec_with_bit(raw, GDB_OVERRIDE_BIT, true);
            let seen = spec_with_bit(stored, GDB_OVERRIDE_BIT, false);
            &&& spec_bit(stored, GDB_OVERRIDE_BIT)
            &&& !spec_bit(seen, GDB_OVERRIDE_BIT)
            &&& match spec_requested_mode(req) {
                Some((disabled, autonomous)) => {
                    &&& spec_bit(seen, DISABLED_BIT) == disabled
                    &&& spec_bit(seen, AUTONOMOUS_BIT) == autonomous
                    &&& spec_bit(seen, CONNECTED_BIT) == current.spec_connected()
                    &&& spec_bit(seen, SYSTEM_BIT) == current.spec_system()
                },
                None => {
                    let (connected, field_control) = spec_requested_system(req).unwrap();
                    &&& spec_bit(seen, CONNECTED_BIT) == connected
                    &&& spec_bit(seen, SYSTEM_BIT) == field_control
                    &&& spec_bit(seen, DISABLED_BIT) == current.spec_disabled()
                    &&& spec_bit(seen, AUTONOMOUS_BIT) == current.spec_autonomous()
                },
            }
            &&& forall|m: u32| 4 <= m < 31 ==> #[trigger] spec_bit(seen, m) == spec_bit(current.spec_raw(), m)
        },
{
    let c = current.spec_raw();
    let (a, av, b, bv) = match req {
        CompetitionRequest::Driver => (DISABLED_BIT, false, AUTONOMOUS_BIT, false),
        CompetitionRequest::Autonomous => (DISABLED_BIT, false, AUTONOMOUS_BIT, true),
        CompetitionRequest::Disabled => (DISABLED_BIT, true, AUTONOMOUS_BIT, false),
        CompetitionRequest::NoSystem => (CONNECTED_BIT, false, SYSTEM_BIT, false),
        CompetitionRequest::FieldControl => (CONNECTED_BIT, true, SYSTEM_BIT, true),
        _ => (CONNECTED_BIT, true, SYSTEM_BIT, false),
    };
    let x = spec_with_bit(c, a, av);
    let raw = spec_with_bit(x, b, bv);
    assert(req.spec_apply(current) == Some(Some(raw)));
    let stored = spec_with_bit(raw, GDB_OVERRIDE_BIT, true);
    let seen = spec_with_bit(stored, GDB_OVERRIDE_BIT, false);
    assert forall|m: u32| m < 32 implies #[trigger] spec_bit(seen, m) == if m == GDB_OVERRIDE_BIT {
        false
    } else if m == b {
        bv
    } else if m == a {
        av
    } else {
        spec_bit(c, m)
    } by {
        lemma_with_bit(c, a, m, av);
        lemma_with_bit(x, b, m, bv);
        lemma_with_bit(raw, GDB_OVERRIDE_BIT, m, true);
        lemma_with_bit(stored, GDB_OVERRIDE_BIT, m, false);
    }
    lemma_with_bit(raw, GDB_OVERRIDE_BIT, GDB_OVERRIDE_BIT, true);
}

/// Setting two distinct bits one after the other leaves both as set.
proof fn lemma_two_bits(raw: u32, a: u32, av: bool, b: u32, bv: bool)
    requires
        a < 32,
        b < 32,
        a != b,
    ensures
        spec_bit(spec_with_bit(spec_with_bit(raw, a, av), b, bv), a) == av,
        spec_bit(spec_with_bit(spec_with_bit(raw, a, av), b, bv), b) == bv,
{
    lemma_with_bit(raw, a, a, av);
    lemma_with_bit(spec_with_bit(raw, a, av), b, a, bv);
    lemma_with_bit(spec_with_bit(raw, a, av), b, b, bv);
}

/// What each competition request overrides, in the bits of the status word (bit 0 disabled, bit 1
/// autonomous, bit 2 connected, bit 3 field control): `driver` clears disabled and autonomous,
/// `auto` clears disabled and sets autonomous, `dis` sets disabled and clears autonomous; `none`
/// clears connected and field control, `fc` sets both, `switch` sets connected and clears field
/// control. `real` removes the override; an unknown argument or none at all changes nothing.
pub proof fn lemma_competition_request_bits(current: CompetitionStatus)
    ensures
        CompetitionRequest::Driver.spec_apply(current) matches Some(Some(raw)) && !spec_bit(raw, 0) && !spec_bit(raw, 1),
        CompetitionRequest::Autonomous.spec_apply(current) matches Some(Some(raw)) && !spec_bit(raw, 0) && spec_bit(raw, 1),
        CompetitionRequest::Disabled.spec_apply(current) matches Some(Some(raw)) && spec_bit(raw, 0) && !spec_bit(raw, 1),
        CompetitionRequest::NoSystem.spec_apply(current) matches Some(Some(raw)) && !spec_bit(raw, 2) && !spec_bit(raw, 3),
        CompetitionRequest::FieldControl.spec_apply(current) matches Some(Some(raw)) && spec_bit(raw, 2) && spec_bit(raw, 3),
        CompetitionRequest::Switch.spec_apply(current) matches Some(Some(raw)) && spec_bit(raw, 2) && !spec_bit(raw, 3),
        CompetitionRequest::Real.spec_apply(current) == Some(None::<u32>),
        CompetitionRequest::Unknown.spec_apply(current) is None,
        CompetitionRequest::Show.spec_apply(current) is None,
{
    let c = current.spec_raw();
    lemma_two_bits(c, 0, false, 1, false);
    lemma_two_bits(c, 0, false, 1, true);
    lemma_two_bits(c, 0, true, 1, false);
    lemma_two_bits(c, 2, false, 3, false);
    lemma_two_bits(c, 2, true, 3, true);
    lemma_two_bits(c, 2, true, 3, false);
}

/// Applies the state changes of a monitor command: `autostop true`/`false` switch the motor stop
/// on breakpoints, and the competition requests set or clear the override, starting from
/// `current`, the status user code sees. Every other command changes nothing here.
pub fn apply_monitor_cmd(
    target: &mut V5Target,
    comp: &mut CompetitionOverride,
    cmd: MonitorCommand,
    current: CompetitionStatus,
)
    ensures
        final(target).stop_motors_on_break == match cmd {
            MonitorCommand::Autostop(AutostopArg::Enable) => true,
            MonitorCommand::Autostop(AutostopArg::Disable) => false,
            _ => old(target).stop_motors_on_break,
        },
        final(target).monitor_status == old(target).monitor_status,
        final(target).breaks == old(target).breaks,
        final(target).hw_manager == old(target).hw_manager,
        final(comp).spec_raw() == match cmd {
            MonitorCommand::Competition(req) => match req.spec_apply(current) {
                Some(Some(raw)) => spec_with_bit(raw, GDB_OVERRIDE_BIT, true),
                Some(None) => 0,
                None => old(comp).spec_raw(),
            },
            _ => old(comp).spec_raw(),
        },
{
    match cmd {
        MonitorCommand::Autostop(AutostopArg::Enable) => {
            target.stop_motors_on_break = true;
        },
        MonitorCommand::Autostop(AutostopArg::Disable) => {
            target.stop_motors_on_break = false;
        },
        MonitorCommand::Competition(req) => {
            if let Some(change) = req.apply(current) {
                set_override(comp, change);
            }
        },
        _ => {},
    }
}

/// The device type code of a port with nothing connected (`kDeviceTypeNoSensor`).
pub const DEVICE_TYPE_NONE: u8 = 0;

/// The device type code past the last reported port (`kDeviceTypeUndefinedSensor`).
pub const DEVICE_TYPE_UNDEFINED: u8 = 255;

/// A human-readable name for a smart device type code (the values of the SDK's `V5_DeviceType`).
pub open spec fn spec_device_type_name(code: u8) -> Seq<char> {
    if code == 2 {
        "Motor"@
    } else if code == 4 {
        "Rotation"@
    } else if code == 6 {
        "Inertial (IMU)"@
    } else if code == 7 {
        "Distance"@
    } else if code == 8 {
        "Radio"@
    } else if code == 9 {
        "Controller"@
    } else if code == 10 {
        "Brain"@
    } else if code == 11 {
        "Vision"@
    } else if code == 12 {
        "ADI (3-Wire)"@
    } else if code == 16 {
        "Optical"@
    } else if code == 17 {
        "Electromagnet"@
    } else if code == 20 {
        "GPS"@
    } else if code == 29 {
        "AI Vision"@
    } else if code == 27 {
        "Light Tower"@
    } else if code == 28 {
        "Workcell Arm"@
    } else if code == 30 {
        "Pneumatics"@
    } else if code == 129 {
        "Generic Serial"@
    } else {
        "Unknown"@
    }
}

/// Returns a human-readable name for a smart device type code.
pub fn device_type_name(code: u8) -> (r: &'static str)
    ensures
        r@ == spec_device_type_name(code),
{
    match code {
        2 => "Motor",
        4 => "Rotation",
        6 => "Inertial (IMU)",
        7 => "Distance",
        8 => "Radio",
        9 => "Controller",
        10 => "Brain",
        11 => "Vision",
        12 => "ADI (3-Wire)",
        16 => "Optical",
        17 => "Electromagnet",
        20 => "GPS",
        29 => "AI Vision",
        27 => "Light Tower",
        28 => "Workcell Arm",
        30 => "Pneumatics",
        129 => "Generic Serial",
        _ => "Unknown",
    }
}

/// Device names follow the SDK's `V5_DeviceType` codes: `kDeviceTypeMotorSensor` (2) is a Motor,
/// `kDeviceTypeAbsEncSensor` (4) a Rotation sensor, `kDeviceTypeImuSensor` (6) an Inertial
/// sensor, `kDeviceTypeDistanceSensor` (7) a Distance sensor, `kDeviceTypeRadioSensor` (8) the
/// Radio, `kDeviceTypeTetherSensor` (9) a Controller, `kDeviceTypeBrainSensor` (10) the Brain,
/// `kDeviceTypeVisionSensor` (11) a Vision sensor, `kDeviceTypeAdiSensor` (12) the three-wire
/// ports, `kDeviceTypeOpticalSensor` (16) an Optical sensor, `kDeviceTypeMagnetSensor` (17) an
/// Electromagnet, `kDeviceTypeGpsSensor` (20) a GPS, `kDeviceTypeLightTowerSensor` (27) a Light
/// Tower, `kDeviceTypeArmDevice` (28) a Workcell Arm, `kDeviceTypeAiVisionSensor` (29) an AI
/// Vision sensor, `kDeviceTypePneumaticSensor` (30) Pneumatics and `kDeviceTypeGenericSerial`
/// (129) a Generic Serial device. Every other code is Unknown.
pub proof fn lemma_device_type_names(code: u8)
    ensures
        spec_device_type_name(2) == "Motor"@,
        spec_device_type_name(4) == "Rotation"@,
        spec_device_type_name(6) == "Inertial (IMU)"@,
        spec_device_type_name(7) == "Distance"@,
        spec_device_type_name(8) == "Radio"@,
        spec_device_type_name(9) == "Controller"@,
        spec_device_type_name(10) == "Brain"@,
        spec_device_type_name(11) == "Vision"@,
        spec_device_type_name(12) == "ADI (3-Wire)"@,
        spec_device_type_name(16) == "Optical"@,
        spec_device_type_name(17) == "Electromagnet"@,
        spec_device_type_name(20) == "GPS"@,
        spec_device_type_name(27) == "Light Tower"@,
        spec_device_type_name(28) == "Workcell Arm"@,
        spec_device_type_name(29) == "AI Vision"@,
        spec_device_type_name(30) == "Pneumatics"@,
        spec_device_type_name(129) == "Generic Serial"@,
        !(code == 2 || code == 4 || code == 6 || code == 7 || code == 8 || code == 9 || code == 10 || code == 11
            || code == 12 || code == 16 || code == 17 || code == 20 || code == 27 || code == 28 || code == 29
            || code == 30 || code == 129) ==> spec_device_type_name(code) == "Unknown"@,
{
}

/// The connected devices reported from port index `i` on: the list ends at the first undefined
/// entry (or the end of the report), and empty ports are skipped. Each device is its port number
/// (counted from 1) and its type code.
pub open spec fn spec_devices_from(types: Seq<u8>, i: int) -> Seq<(usize, u8)>
    decreases types.len() - i,
{
    if i < 0 || i >= types.len() || types[i] == DEVICE_TYPE_UNDEFINED {
        Seq::empty()
    } else if types[i] == DEVICE_TYPE_NONE {
        spec_devices_from(types, i + 1)
    } else {
        seq![((i + 1) as usize, types[i])] + spec_devices_from(types, i + 1)
    }
}

/// Lists the connected devices of a device status report (one type code per port, in port
/// order): port numbers counted from 1 with their type codes, up to the first undefined entry,
/// empty ports skipped.
pub fn connected_devices(types: &[u8]) -> (r: Vec<(usize, u8)>)
    ensures
        r@ == spec_devices_from(types@, 0),
{
    let mut found: Vec<(usize, u8)> = Vec::new();
    let mut i: usize = 0;
    while i < types.len()
        invariant
            i <= types@.len(),
            found@ + spec_devices_from(types@, i as int) == spec_devices_from(types@, 0),
        decreases types@.len() - i,
    {
        let ty = types[i];
        if ty == DEVICE_TYPE_UNDEFINED {
            assert(spec_devices_from(types@, i as int) == Seq::<(usize, u8)>::empty());
            assert(found@ + Seq::<(usize, u8)>::empty() =~= found@);
            return found;
        }
        if ty != DEVICE_TYPE_NONE {
            let ghost before = found@;
            found.push((i + 1, ty));
            assert(found@ + spec_devices_from(types@, i + 1) =~= before + spec_devices_from(types@, i as int));
        }
        i = i + 1;
    }
    assert(found@ + Seq::<(usize, u8)>::empty() =~= found@);
    found
}


/// The command words: `stop` stops the motors; `dev` and `devices` list the devices; `batt` and
/// `battery` show the battery; `sys` goes to the system integration; `?`, `h` and `help` show the
/// help; `log` alone sets no level; any word that names no command is unknown.
pub proof fn lemma_command_words(words: Seq<Seq<char>>)
    requires
        words.len() >= 1,
    ensures
        words[0] == "stop"@ ==> spec_parse_monitor_args(words) == MonitorCommand::Stop,
        words[0] == "dev"@ || words[0] == "devices"@ ==> spec_parse_monitor_args(words) == MonitorCommand::Devices,
        words[0] == "batt"@ || words[0] == "battery"@ ==> spec_parse_monitor_args(words) == MonitorCommand::Battery,
        words[0] == "sys"@ ==> spec_parse_monitor_args(words) == MonitorCommand::Sys,
        words[0] == "?"@ || words[0] == "h"@ || words[0] == "help"@ ==> spec_parse_monitor_args(words) == MonitorCommand::Help,
        words[0] == "log"@ && words.len() == 1 ==> spec_parse_monitor_args(words) == MonitorCommand::Log(None),
        !(words[0] == "stop"@ || words[0] == "autostop"@ || words[0] == "dev"@ || words[0] == "devices"@ || words[0] == "batt"@ || words[0] == "battery"@ || words[0] == "ctrl"@ || words[0] == "comp"@ || words[0] == "dbg"@ || words[0] == "log"@ || words[0] == "sys"@ || words[0] == "?"@ || words[0] == "h"@ || words[0] == "help"@) ==> spec_parse_monitor_args(words) == MonitorCommand::Unknown,
{
    reveal_strlit("stop");
    assert("stop"@.len() == 4);
    assert("stop"@[0] == 's');
    assert("stop"@[1] == 't');
    reveal_strlit("autostop");
    assert("autostop"@.len() == 8);
    assert("autostop"@[0] == 'a');
    assert("autostop"@[1] == 'u');
    reveal_strlit("dev");
    assert("dev"@.len() == 3);
    assert("dev"@[0] == 'd');
    assert("dev"@[1] == 'e');
    reveal_strlit("devices");
    assert("devices"@.len() == 7);
    assert("devices"@[0] == 'd');
    assert("devices"@[1] == 'e');
    reveal_strlit("batt");
    assert("batt"@.len() == 4);
    assert("batt"@[0] == 'b');
    assert("batt"@[1] == 'a');
    reveal_strlit("battery");
    assert("battery"@.len() == 7);
    assert("battery"@[0] == 'b');
    assert("battery"@[1] == 'a');
    reveal_strlit("ctrl");
    assert("ctrl"@.len() == 4);
    assert("ctrl"@[0] == 'c');
    assert("ctrl"@[1] == 't');
    reveal_strlit("comp");
    assert("comp"@.len() == 4);
    assert("comp"@[0] == 'c');
    assert("comp"@[1] == 'o');
    reveal_strlit("dbg");
    assert("dbg"@.len() == 3);
    assert("dbg"@[0] == 'd');
    assert("dbg"@[1] == 'b');
    reveal_strlit("log");
    assert("log"@.len() == 3);
    assert("log"@[0] == 'l');
    assert("log"@[1] == 'o');
    reveal_strlit("sys");
    assert("sys"@.len() == 3);
    assert("sys"@[0] == 's');
    assert("sys"@[1] == 'y');
    reveal_strlit("?");
    assert("?"@.len() == 1);
    assert("?"@[0] == '?');
    reveal_strlit("h");
    assert("h"@.len() == 1);
    assert("h"@[0] == 'h');
    reveal_strlit("help");
    assert("help"@.len() == 4);
    assert("help"@[0] == 'h');
    assert("help"@[1] == 'e');
}

/// `autostop true` enables and `autostop false` disables the motor stop on breakpoints,
/// `autostop ?` asks for the setting, any other word is unknown and no word is missing.
pub proof fn lemma_autostop_words(words: Seq<Seq<char>>)
    requires
        words.len() >= 1,
        words[0] == "autostop"@,
    ensures
        words.len() == 1 ==> spec_parse_monitor_args(words) == MonitorCommand::Autostop(AutostopArg::Missing),
        words.len() >= 2 && words[1] == "true"@ ==> spec_parse_monitor_args(words) == MonitorCommand::Autostop(AutostopArg::Enable),
        words.len() >= 2 && words[1] == "false"@ ==> spec_parse_monitor_args(words) == MonitorCommand::Autostop(AutostopArg::Disable),
        words.len() >= 2 && words[1] == "?"@ ==> spec_parse_monitor_args(words) == MonitorCommand::Autostop(AutostopArg::Query),
        words.len() >= 2 && words[1] != "true"@ && words[1] != "false"@ && words[1] != "?"@ ==> spec_parse_monitor_args(words)
            == MonitorCommand::Autostop(AutostopArg::Unknown),
{
    reveal_strlit("stop");
    assert("stop"@.len() == 4);
    assert("stop"@[0] == 's');
    assert("stop"@[1] == 't');
    reveal_strlit("autostop");
    assert("autostop"@.len() == 8);
    assert("autostop"@[0] == 'a');
    assert("autostop"@[1] == 'u');
    reveal_strlit("dev");
    assert("dev"@.len() == 3);
    assert("dev"@[0] == 'd');
    assert("dev"@[1] == 'e');
    reveal_strlit("devices");
    assert("devices"@.len() == 7);
    assert("devices"@[0] == 'd');
    assert("devices"@[1] == 'e');
    reveal_strlit("batt");
    assert("batt"@.len() == 4);
    assert("batt"@[0] == 'b');
    assert("batt"@[1] == 'a');
    reveal_strlit("battery");
    assert("battery"@.len() == 7);
    assert("battery"@[0] == 'b');
    assert("battery"@[1] == 'a');
    reveal_strlit("ctrl");
    assert("ctrl"@.len() == 4);
    assert("ctrl"@[0] == 'c');
    assert("ctrl"@[1] == 't');
    reveal_strlit("comp");
    assert("comp"@.len() == 4);
    assert("comp"@[0] == 'c');
    assert("comp"@[1] == 'o');
    reveal_strlit("dbg");
    assert("dbg"@.len() == 3);
    assert("dbg"@[0] == 'd');
    assert("dbg"@[1] == 'b');
    reveal_strlit("log");
    assert("log"@.len() == 3);
    assert("log"@[0] == 'l');
    assert("log"@[1] == 'o');
    reveal_strlit("sys");
    assert("sys"@.len() == 3);
    assert("sys"@[0] == 's');
    assert("sys"@[1] == 'y');
    reveal_strlit("?");
    assert("?"@.len() == 1);
    assert("?"@[0] == '?');
    reveal_strlit("h");
    assert("h"@.len() == 1);
    assert("h"@[0] == 'h');
    reveal_strlit("help");
    assert("help"@.len() == 4);
    assert("help"@[0] == 'h');
    assert("help"@[1] == 'e');
    reveal_strlit("true");
    assert("true"@.len() == 4);
    assert("true"@[0] == 't');
    assert("true"@[1] == 'r');
    reveal_strlit("false");
    assert("false"@.len() == 5);
    assert("false"@[0] == 'f');
    assert("false"@[1] == 'a');
    reveal_strlit("?");
    assert("?"@.len() == 1);
    assert("?"@[0] == '?');
}

/// `comp` followed by a documented word requests what the help text says: `driver`, `op` or
/// `opcontrol` driver control; `auto`, `auton` or `autonomous` autonomous; `dis` or `disabled`
/// disabled; `none` or `disconnected` no competition system; `fc` or `field-control` field control;
/// `switch` a competition switch; `real` the real status. `comp` alone shows the status and any
/// other word is unknown.
pub proof fn lemma_competition_words(words: Seq<Seq<char>>)
    requires
        words.len() >= 1,
        words[0] == "comp"@,
    ensures
        words.len() == 1 ==> spec_parse_monitor_args(words) == MonitorCommand::Competition(CompetitionRequest::Show),
        words.len() >= 2 && (words[1] == "driver"@ || words[1] == "op"@ || words[1] == "opcontrol"@) ==> spec_parse_monitor_args(words)
            == MonitorCommand::Competition(CompetitionRequest::Driver),
        words.len() >= 2 && (words[1] == "auto"@ || words[1] == "auton"@ || words[1] == "autonomous"@) ==> spec_parse_monitor_args(words)
            == MonitorCommand::Competition(CompetitionRequest::Autonomous),
        words.len() >= 2 && (words[1] == "dis"@ || words[1] == "disabled"@) ==> spec_parse_monitor_args(words)
            == MonitorCommand::Competition(CompetitionRequest::Disabled),
        words.len() >= 2 && (words[1] == "none"@ || words[1] == "disconnected"@) ==> spec_parse_monitor_args(words)
            == MonitorCommand::Competition(CompetitionRequest::NoSystem),
        words.len() >= 2 && (words[1] == "fc"@ || words[1] == "field-control"@) ==> spec_parse_monitor_args(words)
            == MonitorCommand::Competition(CompetitionRequest::FieldControl),
        words.len() >= 2 && (words[1] == "switch"@) ==> spec_parse_monitor_args(words)
            == MonitorCommand::Competition(CompetitionRequest::Switch),
        words.len() >= 2 && (words[1] == "real"@) ==> spec_parse_monitor_args(words)
            == MonitorCommand::Competition(CompetitionRequest::Real),
        words.len() >= 2 && !(words[1] == "driver"@ || words[1] == "op"@ || words[1] == "opcontrol"@ || words[1] == "auto"@ || words[1] == "auton"@ || words[1] == "autonomous"@ || words[1] == "dis"@ || words[1] == "disabled"@ || words[1] == "none"@ || words[1] == "disconnected"@ || words[1] == "fc"@ || words[1] == "field-control"@ || words[1] == "switch"@ || words[1] == "real"@) ==> spec_parse_monitor_args(words)
            == MonitorCommand::Competition(CompetitionRequest::Unknown),
{
    reveal_strlit("stop");
    assert("stop"@.len() == 4);
    assert("stop"@[0] == 's');
    assert("stop"@[1] == 't');
    reveal_strlit("autostop");
    assert("autostop"@.len() == 8);
    assert("autostop"@[0] == 'a');
    assert("autostop"@[1] == 'u');
    reveal_strlit("dev");
    assert("dev"@.len() == 3);
    assert("dev"@[0] == 'd');
    assert("dev"@[1] == 'e');
    reveal_strlit("devices");
    assert("devices"@.len() == 7);
    assert("devices"@[0] == 'd');
    assert("devices"@[1] == 'e');
    reveal_strlit("batt");
    assert("batt"@.len() == 4);
    assert("batt"@[0] == 'b');
    assert("batt"@[1] == 'a');
    reveal_strlit("battery");
    assert("battery"@.len() == 7);
    assert("battery"@[0] == 'b');
    assert("battery"@[1] == 'a');
    reveal_strlit("ctrl");
    assert("ctrl"@.len() == 4);
    assert("ctrl"@[0] == 'c');
    assert("ctrl"@[1] == 't');
    reveal_strlit("comp");
    assert("comp"@.len() == 4);
    assert("comp"@[0] == 'c');
    assert("comp"@[1] == 'o');
    reveal_strlit("dbg");
    assert("dbg"@.len() == 3);
    assert("dbg"@[0] == 'd');
    assert("dbg"@[1] == 'b');
    reveal_strlit("log");
    assert("log"@.len() == 3);
    assert("log"@[0] == 'l');
    assert("log"@[1] == 'o');
    reveal_strlit("sys");
    assert("sys"@.len() == 3);
    assert("sys"@[0] == 's');
    assert("sys"@[1] == 'y');
    reveal_strlit("?");
    assert("?"@.len() == 1);
    assert("?"@[0] == '?');
    reveal_strlit("h");
    assert("h"@.len() == 1);
    assert("h"@[0] == 'h');
    reveal_strlit("help");
    assert("help"@.len() == 4);
    assert("help"@[0] == 'h');
    assert("help"@[1] == 'e');
    reveal_strlit("driver");
    assert("driver"@.len() == 6);
    assert("driver"@[0] == 'd');
    assert("driver"@[1] == 'r');
    reveal_strlit("op");
    assert("op"@.len() == 2);
    assert("op"@[0] == 'o');
    assert("op"@[1] == 'p');
    reveal_strlit("opcontrol");
    assert("opcontrol"@.len() == 9);
    assert("opcontrol"@[0] == 'o');
    assert("opcontrol"@[1] == 'p');
    reveal_strlit("auto");
    assert("auto"@.len() == 4);
    assert("auto"@[0] == 'a');
    assert("auto"@[1] == 'u');
    reveal_strlit("auton");
    assert("auton"@.len() == 5);
    assert("auton"@[0] == 'a');
    assert("auton"@[1] == 'u');
    reveal_strlit("autonomous");
    assert("autonomous"@.len() == 10);
    assert("autonomous"@[0] == 'a');
    assert("autonomous"@[1] == 'u');
    reveal_strlit("dis");
    assert("dis"@.len() == 3);
    assert("dis"@[0] == 'd');
    assert("dis"@[1] == 'i');
    reveal_strlit("disabled");
    assert("disabled"@.len() == 8);
    assert("disabled"@[0] == 'd');
    assert("disabled"@[1] == 'i');
    reveal_strlit("none");
    assert("none"@.len() == 4);
    assert("none"@[0] == 'n');
    assert("none"@[1] == 'o');
    reveal_strlit("disconnected");
    assert("disconnected"@.len() == 12);
    assert("disconnected"@[0] == 'd');
    assert("disconnected"@[1] == 'i');
    reveal_strlit("fc");
    assert("fc"@.len() == 2);
    assert("fc"@[0] == 'f');
    assert("fc"@[1] == 'c');
    reveal_strlit("field-control");
    assert("field-control"@.len() == 13);
    assert("field-control"@[0] == 'f');
    assert("field-control"@[1] == 'i');
    reveal_strlit("switch");
    assert("switch"@.len() == 6);
    assert("switch"@[0] == 's');
    assert("switch"@[1] == 'w');
    reveal_strlit("real");
    assert("real"@.len() == 4);
    assert("real"@[0] == 'r');
    assert("real"@[1] == 'e');
}

/// `dbg break` shows the software breakpoints, `dbg hw` the hardware ones; `dbg` alone misses its
/// subcommand and any other word is unknown.
pub proof fn lemma_debug_words(words: Seq<Seq<char>>)
    requires
        words.len() >= 1,
        words[0] == "dbg"@,
    ensures
        words.len() == 1 ==> spec_parse_monitor_args(words) == MonitorCommand::Debug(DebugQuery::Missing),
        words.len() >= 2 && words[1] == "break"@ ==> spec_parse_monitor_args(words) == MonitorCommand::Debug(DebugQuery::Breakpoints),
        words.len() >= 2 && words[1] == "hw"@ ==> spec_parse_monitor_args(words) == MonitorCommand::Debug(DebugQuery::Hardware),
        words.len() >= 2 && words[1] != "break"@ && words[1] != "hw"@ ==> spec_parse_monitor_args(words)
            == MonitorCommand::Debug(DebugQuery::Unknown),
{
    reveal_strlit("stop");
    assert("stop"@.len() == 4);
    assert("stop"@[0] == 's');
    assert("stop"@[1] == 't');
    reveal_strlit("autostop");
    assert("autostop"@.len() == 8);
    assert("autostop"@[0] == 'a');
    assert("autostop"@[1] == 'u');
    reveal_strlit("dev");
    assert("dev"@.len() == 3);
    assert("dev"@[0] == 'd');
    assert("dev"@[1] == 'e');
    reveal_strlit("devices");
    assert("devices"@.len() == 7);
    assert("devices"@[0] == 'd');
    assert("devices"@[1] == 'e');
    reveal_strlit("batt");
    assert("batt"@.len() == 4);
    assert("batt"@[0] == 'b');
    assert("batt"@[1] == 'a');
    reveal_strlit("battery");
    assert("battery"@.len() == 7);
    assert("battery"@[0] == 'b');
    assert("battery"@[1] == 'a');
    reveal_strlit("ctrl");
    assert("ctrl"@.len() == 4);
    assert("ctrl"@[0] == 'c');
    assert("ctrl"@[1] == 't');
    reveal_strlit("comp");
    assert("comp"@.len() == 4);
    assert("comp"@[0] == 'c');
    assert("comp"@[1] == 'o');
    reveal_strlit("dbg");
    assert("dbg"@.len() == 3);
    assert("dbg"@[0] == 'd');
    assert("dbg"@[1] == 'b');
    reveal_strlit("log");
    assert("log"@.len() == 3);
    assert("log"@[0] == 'l');
    assert("log"@[1] == 'o');
    reveal_strlit("sys");
    assert("sys"@.len() == 3);
    assert("sys"@[0] == 's');
    assert("sys"@[1] == 'y');
    reveal_strlit("?");
    assert("?"@.len() == 1);
    assert("?"@[0] == '?');
    reveal_strlit("h");
    assert("h"@.len() == 1);
    assert("h"@[0] == 'h');
    reveal_strlit("help");
    assert("help"@.len() == 4);
    assert("help"@[0] == 'h');
    assert("help"@[1] == 'e');
    reveal_strlit("break");
    assert("break"@.len() == 5);
    assert("break"@[0] == 'b');
    assert("break"@[1] == 'r');
    reveal_strlit("hw");
    assert("hw"@.len() == 2);
    assert("hw"@[0] == 'h');
    assert("hw"@[1] == 'w');
}

/// `ctrl partner` and `ctrl p` show the partner controller; `ctrl` alone or with any other word
/// shows the primary one.
pub proof fn lemma_controller_words(words: Seq<Seq<char>>)
    requires
        words.len() >= 1,
        words[0] == "ctrl"@,
    ensures
        words.len() >= 2 && (words[1] == "partner"@ || words[1] == "p"@) ==> spec_parse_monitor_args(words)
            == (MonitorCommand::Controller { partner: true }),
        (words.len() == 1 || (words[1] != "partner"@ && words[1] != "p"@)) ==> spec_parse_monitor_args(words)
            == (MonitorCommand::Controller { partner: false }),
{
    reveal_strlit("stop");
    assert("stop"@.len() == 4);
    assert("stop"@[0] == 's');
    assert("stop"@[1] == 't');
    reveal_strlit("autostop");
    assert("autostop"@.len() == 8);
    assert("autostop"@[0] == 'a');
    assert("autostop"@[1] == 'u');
    reveal_strlit("dev");
    assert("dev"@.len() == 3);
    assert("dev"@[0] == 'd');
    assert("dev"@[1] == 'e');
    reveal_strlit("devices");
    assert("devices"@.len() == 7);
    assert("devices"@[0] == 'd');
    assert("devices"@[1] == 'e');
    reveal_strlit("batt");
    assert("batt"@.len() == 4);
    assert("batt"@[0] == 'b');
    assert("batt"@[1] == 'a');
    reveal_strlit("battery");
    assert("battery"@.len() == 7);
    assert("battery"@[0] == 'b');
    assert("battery"@[1] == 'a');
    reveal_strlit("ctrl");
    assert("ctrl"@.len() == 4);
    assert("ctrl"@[0] == 'c');
    assert("ctrl"@[1] == 't');
    reveal_strlit("comp");
    assert("comp"@.len() == 4);
    assert("comp"@[0] == 'c');
    assert("comp"@[1] == 'o');
    reveal_strlit("dbg");
    assert("dbg"@.len() == 3);
    assert("dbg"@[0] == 'd');
    assert("dbg"@[1] == 'b');
    reveal_strlit("log");
    assert("log"@.len() == 3);
    assert("log"@[0] == 'l');
    assert("log"@[1] == 'o');
    reveal_strlit("sys");
    assert("sys"@.len() == 3);
    assert("sys"@[0] == 's');
    assert("sys"@[1] == 'y');
    reveal_strlit("?");
    assert("?"@.len() == 1);
    assert("?"@[0] == '?');
    reveal_strlit("h");
    assert("h"@.len() == 1);
    assert("h"@[0] == 'h');
    reveal_strlit("help");
    assert("help"@.len() == 4);
    assert("help"@[0] == 'h');
    assert("help"@[1] == 'e');
    reveal_strlit("partner");
    assert("partner"@.len() == 7);
    assert("partner"@[0] == 'p');
    assert("partner"@[1] == 'a');
    reveal_strlit("p");
    assert("p"@.len() == 1);
    assert("p"@[0] == 'p');
}

/// `log` followed by a word sets the level that word names, if any.
pub proof fn lemma_log_words(words: Seq<Seq<char>>)
    requires
        words.len() >= 2,
        words[0] == "log"@,
    ensures
        spec_parse_monitor_args(words) == MonitorCommand::Log(spec_log_level_from_str(words[1])),
{
    reveal_strlit("stop");
    assert("stop"@.len() == 4);
    assert("stop"@[0] == 's');
    assert("stop"@[1] == 't');
    reveal_strlit("autostop");
    assert("autostop"@.len() == 8);
    assert("autostop"@[0] == 'a');
    assert("autostop"@[1] == 'u');
    reveal_strlit("dev");
    assert("dev"@.len() == 3);
    assert("dev"@[0] == 'd');
    assert("dev"@[1] == 'e');
    reveal_strlit("devices");
    assert("devices"@.len() == 7);
    assert("devices"@[0] == 'd');
    assert("devices"@[1] == 'e');
    reveal_strlit("batt");
    assert("batt"@.len() == 4);
    assert("batt"@[0] == 'b');
    assert("batt"@[1] == 'a');
    reveal_strlit("battery");
    assert("battery"@.len() == 7);
    assert("battery"@[0] == 'b');
    assert("battery"@[1] == 'a');
    reveal_strlit("ctrl");
    assert("ctrl"@.len() == 4);
    assert("ctrl"@[0] == 'c');
    assert("ctrl"@[1] == 't');
    reveal_strlit("comp");
    assert("comp"@.len() == 4);
    assert("comp"@[0] == 'c');
    assert("comp"@[1] == 'o');
    reveal_strlit("dbg");
    assert("dbg"@.len() == 3);
    assert("dbg"@[0] == 'd');
    assert("dbg"@[1] == 'b');
    reveal_strlit("log");
    assert("log"@.len() == 3);
    assert("log"@[0] == 'l');
    assert("log"@[1] == 'o');
    reveal_strlit("sys");
    assert("sys"@.len() == 3);
    assert("sys"@[0] == 's');
    assert("sys"@[1] == 'y');
    reveal_strlit("?");
    assert("?"@.len() == 1);
    assert("?"@[0] == '?');
    reveal_strlit("h");
    assert("h"@.len() == 1);
    assert("h"@[0] == 'h');
    reveal_strlit("help");
    assert("help"@.len() == 4);
    assert("help"@[0] == 'h');
    assert("help"@[1] == 'e');
}

} // verus!
