//! The debug target as seen by GDB: architecture description, breakpoints and monitor commands.

pub mod arch;
pub mod breakpoint;
pub mod controller;
pub mod monitor;
pub mod reply;


use vstd::prelude::*;

use crate::cpu::instruction::Instruction;
use breakpoint::BreakpointError;
use breakpoint::hardware::HwBreakpointManager;
use breakpoint::software::{
    spec_has_reason, spec_slot_after_removal, spec_slots_with_enabled, spec_sw_at, SwBreakpoint,
    SwBreakpointTable,
};

verus! {

/// What the debug monitor is doing with the halted program.
#[derive(Debug, Clone, Copy, PartialEq, Eq, Structural)]
pub enum MonitorStatus {
    /// The program is halted and the monitor serves GDB.
    Halted,
    /// The program is about to exit; the monitor waits for GDB to let go.
    Exiting,
    /// The monitor should return control to the program.
    ResumingProgram,
}

/// The state of the debug target that GDB inspects and controls.
pub struct V5Target {
    /// Whether every motor is stopped when a breakpoint fires.
    pub stop_motors_on_break: bool,
    /// What the debug monitor is doing.
    pub monitor_status: MonitorStatus,
    /// The hardware breakpoint slots.
    pub hw_manager: HwBreakpointManager,
    /// The software breakpoint slots.
    pub breaks: SwBreakpointTable,
}

impl V5Target {
    /// A target with `num_sw_breaks` software and `num_hw_breaks` hardware breakpoint slots, all
    /// free, breakpoints active, motors left alone on a break and the monitor halted.
    pub fn new(num_sw_breaks: usize, num_hw_breaks: usize) -> (r: Self)
        ensures
            !r.stop_motors_on_break,
            r.monitor_status == MonitorStatus::Halted,
            r.breaks.spec_slots() == Seq::<Option<SwBreakpoint>>::new(num_sw_breaks as nat, |i: int| None),
            !r.breaks.spec_paused(),
            r.hw_manager.spec_slots().len() == num_hw_breaks,
            forall|i: int| 0 <= i < num_hw_breaks ==> #[trigger] r.hw_manager.spec_slots()[i] is None,
    {
        V5Target {
            stop_motors_on_break: false,
            monitor_status: MonitorStatus::Halted,
            hw_manager: HwBreakpointManager::new(num_hw_breaks),
            breaks: SwBreakpointTable::new(num_sw_breaks),
        }
    }

    /// Whether breakpoints are currently ignored.
    pub fn breakpoints_ignored(&self) -> (r: bool)
        ensures
            r == self.breaks.spec_paused(),
    {
        self.breaks.is_paused()
    }

    /// Enable or disable the triggering of breakpoints.
    ///
    /// Every software breakpoint is disabled while breakpoints are ignored and enabled otherwise;
    /// nothing else about them changes, so restoring the setting restores every breakpoint.
    /// (Hardware breakpoints never trigger in abort mode.)
    pub fn set_breakpoints_ignored(&mut self, ignored: bool)
        ensures
            final(self).breaks.spec_paused() == ignored,
            final(self).breaks.spec_slots() == spec_slots_with_enabled(old(self).breaks.spec_slots(), !ignored),
            spec_slots_with_enabled(final(self).breaks.spec_slots(), !old(self).breaks.spec_paused())
                == old(self).breaks.spec_slots(),
            final(self).stop_motors_on_break == old(self).stop_motors_on_break,
            final(self).monitor_status == old(self).monitor_status,
            final(self).hw_manager.spec_slots() == old(self).hw_manager.spec_slots(),
    {
        self.breaks.set_paused(ignored);
    }

    /// The software breakpoint with the given id, if any.
    pub fn breakpoint(&self, id: usize) -> (r: Option<SwBreakpoint>)
        ensures
            id < self.breaks.spec_slots().len() ==> r == self.breaks.spec_slots()[id as int],
            id >= self.breaks.spec_slots().len() ==> r is None,
            r matches Some(b) ==> b.enabled == !self.breaks.spec_paused() && (b.reason.user || b.reason.internal),
    {
        self.breaks.get(id)
    }

    /// Places a software breakpoint at `addr` (see [`SwBreakpointTable::register`]).
    pub fn register_sw_breakpoint(
        &mut self,
        addr: u32,
        replaced: Instruction,
        internal: bool,
        writable: bool,
    ) -> (r: Result<usize, BreakpointError>)
        ensures
            r == old(self).breaks.spec_register_result(addr, replaced, internal, writable),
            final(self).breaks.spec_slots() == old(self).breaks.spec_slots_after_register(
                addr,
                replaced,
                internal,
                writable,
            ),
            final(self).breaks.spec_paused() == old(self).breaks.spec_paused(),
            final(self).stop_motors_on_break == old(self).stop_motors_on_break,
            final(self).monitor_status == old(self).monitor_status,
            final(self).hw_manager.spec_slots() == old(self).hw_manager.spec_slots(),
    {
        self.breaks.register(addr, replaced, internal, writable)
    }

    /// Withdraws one reason from the software breakpoint at `addr` (see
    /// [`SwBreakpointTable::remove`]). Returns whether the breakpoint had that reason.
    pub fn remove_sw_breakpoint(&mut self, addr: u32, internal: bool) -> (r: bool)
        ensures
            r == exists|i: int|
                0 <= i < old(self).breaks.spec_slots().len() && #[trigger] spec_sw_at(old(self).breaks.spec_slots()[i], addr)
                    && spec_has_reason(old(self).breaks.spec_slots()[i].unwrap(), internal),
            final(self).breaks.spec_slots().len() == old(self).breaks.spec_slots().len(),
            forall|i: int|
                0 <= i < old(self).breaks.spec_slots().len() ==> #[trigger] final(self).breaks.spec_slots()[i]
                    == spec_slot_after_removal(old(self).breaks.spec_slots()[i], addr, internal),
            final(self).breaks.spec_paused() == old(self).breaks.spec_paused(),
            final(self).stop_motors_on_break == old(self).stop_motors_on_break,
            final(self).monitor_status == old(self).monitor_status,
            final(self).hw_manager.spec_slots() == old(self).hw_manager.spec_slots(),
    {
        self.breaks.remove(addr, internal)
    }
}

} // verus!
