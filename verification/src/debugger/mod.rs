//! Decisions of the debugger's event handling and GDB session lifecycle.

use vstd::prelude::*;

use crate::cpu::instruction::Instruction;
use crate::gdb_target::breakpoint::BreakpointError;
use crate::gdb_target::breakpoint::software::{spec_slot_after_removal, spec_sw_at, spec_sw_has_addr};
use crate::gdb_target::{MonitorStatus, V5Target};

verus! {

/// Initial configuration for the debugger.
///
/// Stores the debugger's default settings. These values are applied once when the debugger is
/// initialized and have no effect if modified afterwards. All settings can be overridden at
/// runtime from GDB using monitor commands, without restarting the program.
#[derive(Debug, Clone, Copy, PartialEq, Eq, Structural)]
pub struct DebuggerConfig {
    /// Whether all motors should be stopped immediately when a breakpoint fires.
    ///
    /// This prevents the robot from driving away or actuating mechanisms while execution is
    /// paused. Can be toggled at runtime with `monitor autostop true` / `monitor autostop false`.
    ///
    /// Defaults to `false`.
    pub stop_motors_on_break: bool,
}

impl Default for DebuggerConfig {
    fn default() -> (r: Self)
        ensures
            !r.stop_motors_on_break,
    {
        DebuggerConfig { stop_motors_on_break: false }
    }
}

/// What shall be done after a breakpoint has been acknowledged.
#[derive(Debug, Clone, Copy, PartialEq, Eq, Structural)]
pub enum StopAction {
    /// Return to the code that was previously executing.
    Resume,
    /// Pause the program and run the debug console.
    EnterMonitor,
}

/// Breakpoints the debugger places for its own purposes.
#[derive(Debug, Clone, Copy, PartialEq, Eq, Structural)]
pub enum InternalBreakpoint {
    /// The entry of `vexSystemExitRequest`, so the GDB client can be told before the program exits.
    SystemExitRequest,
}

/// Why the CPU stopped.
#[derive(Debug, Clone, Copy, PartialEq, Eq, Structural)]
pub enum StopReason {
    /// A software breakpoint from the breakpoint table was hit.
    TrackedSoftwareBreak {
        /// The breakpoint's id.
        id: usize,
    },
    /// Any other reason: a hardware breakpoint, a finished step, an interrupt request or a
    /// `BKPT` instruction the debugger did not place.
    Other,
}

/// Where the GDB protocol session stands.
#[derive(Debug, Clone, Copy, PartialEq, Eq, Structural)]
pub enum ClientState {
    /// No client has connected yet.
    Uninitialized,
    /// The client disconnected.
    Disconnected,
    /// A client is connected.
    Connected,
}

/// Whether a GDB client is connected.
pub fn has_client(state: ClientState) -> (r: bool)
    ensures
        r == (state == ClientState::Connected),
{
    match state {
        ClientState::Connected => true,
        _ => false,
    }
}

/// The byte GDB sends to interrupt a running program (Ctrl+C).
pub const CTRL_C: u8 = 0x03;

/// Whether a byte received while the program runs asks to pause it.
pub fn is_interrupt_request(byte: u8) -> (r: bool)
    ensures
        r == (byte == CTRL_C),
{
    byte == CTRL_C
}

/// Where to place the internal breakpoint for a function: the Thumb bit of a function pointer
/// says which instruction set the function uses and is not part of its address.
pub open spec fn spec_function_entry(func_addr: u32) -> (u32, bool) {
    ((func_addr - func_addr % 2) as u32, func_addr % 2 == 1)
}

/// Returns the address of a function's first instruction and whether it is Thumb code.
pub fn function_entry(func_addr: u32) -> (r: (u32, bool))
    ensures
        r == spec_function_entry(func_addr),
{
    (func_addr - func_addr % 2, func_addr % 2 == 1)
}

/// A function's entry is its pointer with the Thumb bit cleared: the entry is even, the function
/// is Thumb code exactly when the pointer is odd, and the pointer is the entry plus that bit.
pub proof fn lemma_function_entry(func_addr: u32)
    ensures
        spec_function_entry(func_addr).0 % 2 == 0,
        spec_function_entry(func_addr).1 <==> func_addr % 2 == 1,
        spec_function_entry(func_addr).0 + (if spec_function_entry(func_addr).1 { 1int } else { 0int }) == func_addr,
{
}

/// The monitor status after the stop reason was reported to GDB.
pub open spec fn spec_after_stop_reported(status: MonitorStatus, exited: bool) -> MonitorStatus {
    if exited {
        MonitorStatus::ResumingProgram
    } else {
        status
    }
}

/// The monitor status after GDB disconnected.
pub open spec fn spec_after_disconnect(status: MonitorStatus) -> MonitorStatus {
    if status == MonitorStatus::Exiting {
        MonitorStatus::ResumingProgram
    } else {
        status
    }
}

/// The exit handshake: once the exit-request breakpoint marked the monitor as exiting, the client
/// disconnecting lets the program go on exiting; a disconnect at any other time keeps the monitor
/// for the next client, and reporting the exit to GDB ends the monitor too.
pub proof fn lemma_exit_handshake(status: MonitorStatus)
    ensures
        spec_after_disconnect(MonitorStatus::Exiting) == MonitorStatus::ResumingProgram,
        status != MonitorStatus::Exiting ==> spec_after_disconnect(status) == status,
        spec_after_stop_reported(status, true) == MonitorStatus::ResumingProgram,
        spec_after_stop_reported(status, false) == status,
{
}

/// The debugger's state across breakpoints, apart from the GDB protocol stub itself.
pub struct DebugSession {
    /// The debug target.
    pub target: V5Target,
    /// The internal breakpoints placed so far, with their addresses.
    pub internal_breaks: Option<(InternalBreakpoint, u32)>,
}

impl DebugSession {
    /// A session on `target` with no internal breakpoints yet.
    pub fn new(target: V5Target) -> (r: Self)
        ensures
            r.target == target,
            r.internal_breaks is None,
    {
        DebugSession { target, internal_breaks: None }
    }

    /// Applies the initial configuration to the live target state; from then on the target's
    /// values are the ones that count.
    pub fn apply_config(&mut self, config: &DebuggerConfig)
        ensures
            final(self).target.stop_motors_on_break == config.stop_motors_on_break,
            final(self).target.monitor_status == old(self).target.monitor_status,
            final(self).target.breaks == old(self).target.breaks,
            final(self).target.hw_manager == old(self).target.hw_manager,
            final(self).internal_breaks == old(self).internal_breaks,
    {
        self.target.stop_motors_on_break = config.stop_motors_on_break;
    }

    /// Places the breakpoint on `vexSystemExitRequest`, whose function pointer is `exit_func` and
    /// whose first instruction is `replaced`, so the client can be told before the program exits.
    ///
    /// On success the breakpoint is recorded; on failure the error of placing it is returned and
    /// nothing is recorded.
    pub fn register_internal_breakpoints(
        &mut self,
        exit_func: u32,
        replaced: Instruction,
        writable: bool,
    ) -> (r: Result<(), BreakpointError>)
        requires
            old(self).internal_breaks is None,
        ensures
            ({
                let (addr, _thumb) = spec_function_entry(exit_func);
                &&& r is Ok <==> old(self).target.breaks.spec_register_result(addr, replaced, true, writable) is Ok
                &&& final(self).target.breaks.spec_slots() == old(self).target.breaks.spec_slots_after_register(
                    addr,
                    replaced,
                    true,
                    writable,
                )
                &&& r is Ok ==> final(self).internal_breaks == Some((InternalBreakpoint::SystemExitRequest, addr))
                &&& r is Err ==> final(self).internal_breaks is None
            }),
            final(self).target.breaks.spec_paused() == old(self).target.breaks.spec_paused(),
            final(self).target.monitor_status == old(self).target.monitor_status,
            final(self).target.stop_motors_on_break == old(self).target.stop_motors_on_break,
    {
        let (addr, _thumb) = function_entry(exit_func);
        match self.target.register_sw_breakpoint(addr, replaced, true, writable) {
            Ok(_) => {
                self.internal_breaks = Some((InternalBreakpoint::SystemExitRequest, addr));
                Ok(())
            },
            Err(e) => Err(e),
        }
    }

    /// Runs the handler for the internal breakpoint at `pc`, if any.
    ///
    /// At the exit-request breakpoint the breakpoint is withdrawn; with no client connected the
    /// program simply goes on exiting, otherwise the monitor is marked as exiting and entered so
    /// the client can disconnect first. At any other address the program resumes.
    pub fn handle_internal_breakpoint(&mut self, pc: u32, client: ClientState) -> (r: StopAction)
        ensures
            ({
                let old_breaks = old(self).target.breaks.spec_slots();
                if old(self).internal_breaks == Some((InternalBreakpoint::SystemExitRequest, pc)) {
                        &&& final(self).target.breaks.spec_slots().len() == old_breaks.len()
                        &&& forall|i: int| 0 <= i < old_breaks.len() ==> #[trigger] final(self).target.breaks.spec_slots()[i]
                            == spec_slot_after_removal(old_breaks[i], pc, true)
                        &&& if client == ClientState::Connected {
                            r == StopAction::EnterMonitor && final(self).target.monitor_status == MonitorStatus::Exiting
                        } else {
                            r == StopAction::Resume && final(self).target.monitor_status == old(self).target.monitor_status
                        }
                } else {
                        &&& r == StopAction::Resume
                        &&& final(self).target.breaks.spec_slots() == old_breaks
                        &&& final(self).target.monitor_status == old(self).target.monitor_status
                }
            }),
            final(self).internal_breaks == old(self).internal_breaks,
            final(self).target.breaks.spec_paused() == old(self).target.breaks.spec_paused(),
            final(self).target.stop_motors_on_break == old(self).target.stop_motors_on_break,
    {
        if let Some((InternalBreakpoint::SystemExitRequest, addr)) = self.internal_breaks {
            if addr == pc {
                assert(self.internal_breaks == Some((InternalBreakpoint::SystemExitRequest, pc)));
                self.target.remove_sw_breakpoint(addr, true);
                if !has_client(client) {
                    return StopAction::Resume;
                }
                self.target.monitor_status = MonitorStatus::Exiting;
                return StopAction::EnterMonitor;
            }
        }
        StopAction::Resume
    }

    /// Why the CPU stopped at `pc`: at a software breakpoint of the table it is that breakpoint (the
    /// only one at `pc`),
    /// anything else (a hardware breakpoint, a step, an interrupt) is another reason.
    pub fn stop_reason_at(&self, pc: u32) -> (r: StopReason)
        ensures
            match r {
                StopReason::TrackedSoftwareBreak { id } => id < self.target.breaks.spec_slots().len()
                    && spec_sw_at(self.target.breaks.spec_slots()[id as int], pc)
                    && forall|j: int|
                    0 <= j < self.target.breaks.spec_slots().len() && #[trigger] spec_sw_at(
                        self.target.breaks.spec_slots()[j],
                        pc,
                    ) ==> j == id,
                StopReason::Other => !spec_sw_has_addr(self.target.breaks.spec_slots(), pc),
            },
    {
        match self.target.breaks.find(pc) {
            Some(id) => StopReason::TrackedSoftwareBreak { id },
            None => StopReason::Other,
        }
    }

    /// Responds to entering a breakpoint and decides whether the user should be notified of it.
    ///
    /// Only tracked software breakpoints can be internal. A user breakpoint always enters the
    /// monitor; an internal one runs its handler (see [`Self::handle_internal_breakpoint`]) and
    /// enters the monitor when the handler asks for it; every other stop enters the monitor.
    pub fn handle_stop(&mut self, reason: StopReason, pc: u32, client: ClientState) -> (r: StopAction)
        requires
            reason matches StopReason::TrackedSoftwareBreak { id } ==> old(self).target.breaks.spec_slots().len() > id
                && old(self).target.breaks.spec_slots()[id as int] is Some,
        ensures
            match reason {
                StopReason::TrackedSoftwareBreak { id } => {
                    let b = old(self).target.breaks.spec_slots()[id as int].unwrap();
                    &&& b.reason.user ==> r == StopAction::EnterMonitor
                    &&& !b.reason.user && !b.reason.internal ==> r == StopAction::Resume
                    &&& !b.reason.internal ==> final(self).target.breaks.spec_slots() == old(self).target.breaks.spec_slots()
                        && final(self).target.monitor_status == old(self).target.monitor_status
                    &&& b.reason.internal ==> {
                        let handled = old(self).internal_breaks == Some((InternalBreakpoint::SystemExitRequest, pc));
                        &&& (!b.reason.user && handled && client == ClientState::Connected) ==> r == StopAction::EnterMonitor
                        &&& (!b.reason.user && !(handled && client == ClientState::Connected)) ==> r == StopAction::Resume
                        &&& handled && client == ClientState::Connected ==> final(self).target.monitor_status == MonitorStatus::Exiting
                        &&& !(handled && client == ClientState::Connected) ==> final(self).target.monitor_status == old(self).target.monitor_status
                        &&& handled ==> forall|i: int| 0 <= i < old(self).target.breaks.spec_slots().len() ==> #[trigger] final(self).target.breaks.spec_slots()[i]
                            == spec_slot_after_removal(old(self).target.breaks.spec_slots()[i], pc, true)
                        &&& !handled ==> final(self).target.breaks.spec_slots() == old(self).target.breaks.spec_slots()
                    }
                },
                StopReason::Other => {
                    &&& r == StopAction::EnterMonitor
                    &&& final(self).target.breaks.spec_slots() == old(self).target.breaks.spec_slots()
                    &&& final(self).target.monitor_status == old(self).target.monitor_status
                },
            },
            final(self).target.breaks.spec_slots().len() == old(self).target.breaks.spec_slots().len(),
            final(self).internal_breaks == old(self).internal_breaks,
            final(self).target.breaks.spec_paused() == old(self).target.breaks.spec_paused(),
            final(self).target.stop_motors_on_break == old(self).target.stop_motors_on_break,
    {
        let id = match reason {
            StopReason::TrackedSoftwareBreak { id } => id,
            StopReason::Other => {
                return StopAction::EnterMonitor;
            },
        };
        let breakpoint = self.target.breakpoint(id).unwrap();
        let internal_action = if breakpoint.reason.internal {
            self.handle_internal_breakpoint(pc, client)
        } else {
            StopAction::Resume
        };
        if breakpoint.reason.user {
            StopAction::EnterMonitor
        } else {
            internal_action
        }
    }

    /// After the stop reason was reported to GDB: once GDB has been told the program exited, the
    /// monitor stops, because the session ends.
    pub fn after_stop_reported(&mut self, exited: bool)
        ensures
            final(self).target.monitor_status == spec_after_stop_reported(old(self).target.monitor_status, exited),
            final(self).target.breaks == old(self).target.breaks,
            final(self).target.hw_manager == old(self).target.hw_manager,
            final(self).target.stop_motors_on_break == old(self).target.stop_motors_on_break,
            final(self).internal_breaks == old(self).internal_breaks,
    {
        if exited {
            self.target.monitor_status = MonitorStatus::ResumingProgram;
        }
    }

    /// After GDB disconnected: if the program is about to exit, GDB let go so it can, and the
    /// program resumes; otherwise the monitor stays so a new GDB instance can pick up.
    pub fn after_client_disconnected(&mut self)
        ensures
            final(self).target.monitor_status == spec_after_disconnect(old(self).target.monitor_status),
            final(self).target.breaks == old(self).target.breaks,
            final(self).target.hw_manager == old(self).target.hw_manager,
            final(self).target.stop_motors_on_break == old(self).target.stop_motors_on_break,
            final(self).internal_breaks == old(self).internal_breaks,
    {
        if self.target.monitor_status == MonitorStatus::Exiting {
            self.target.monitor_status = MonitorStatus::ResumingProgram;
        }
    }

    /// Whether the debug console keeps serving GDB.
    pub fn console_active(&self) -> (r: bool)
        ensures
            r == (self.target.monitor_status != MonitorStatus::ResumingProgram),
    {
        self.target.monitor_status != MonitorStatus::ResumingProgram
    }
}

} // verus!
