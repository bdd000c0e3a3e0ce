//! Competition status overriding.
//!
//! The override changes the values that competition status functions return without changing the
//! view of competition mode to VEXos. Therefore, the faked competition status does not override
//! any restrictions imposed by VEXos on I/O during the autonomous and disabled modes. For instance,
//! if the real competition mode is "disabled" but it's overridden to "opcontrol", then user code
//! will see "opcontrol" as the current mode but be unable to write to motor devices.

use vstd::prelude::*;
use vstd::string::*;

verus! {

/// Bit `n` of `raw`.
pub open spec fn spec_bit(raw: u32, n: u32) -> bool {
    (raw >> n) & 1 == 1
}

/// `raw` with bit `n` set to `value`.
pub open spec fn spec_with_bit(raw: u32, n: u32, value: bool) -> u32 {
    if value {
        raw | (1u32 << n)
    } else {
        raw & !(1u32 << n)
    }
}

/// Setting one bit sets that bit and leaves every other bit as it was.
pub proof fn lemma_with_bit(raw: u32, n: u32, m: u32, value: bool)
    requires
        n < 32,
        m < 32,
    ensures
        spec_bit(spec_with_bit(raw, n, value), m) == if m == n {
            value
        } else {
            spec_bit(raw, m)
        },
{
    if value {
        assert(spec_bit(raw | (1u32 << n), m) == if m == n { true } else { spec_bit(raw, m) }) by (bit_vector)
            requires
                n < 32,
                m < 32,
        ;
    } else {
        assert(spec_bit(raw & !(1u32 << n), m) == if m == n { false } else { spec_bit(raw, m) }) by (bit_vector)
            requires
                n < 32,
                m < 32,
        ;
    }
}

pub(crate) fn with_bit(raw: u32, n: u32, value: bool) -> (r: u32)
    requires
        n < 32,
    ensures
        r == spec_with_bit(raw, n, value),
{
    if value {
        raw | (1u32 << n)
    } else {
        raw & !(1u32 << n)
    }
}

pub(crate) fn bit(raw: u32, n: u32) -> (r: bool)
    requires
        n < 32,
    ensures
        r == spec_bit(raw, n),
{
    (raw >> n) & 1 == 1
}

/// The bit of the "disabled" flag.
pub const DISABLED_BIT: u32 = 0;
/// The bit of the "autonomous" flag.
pub const AUTONOMOUS_BIT: u32 = 1;
/// The bit of the "connected to a competition system" flag.
pub const CONNECTED_BIT: u32 = 2;
/// The bit of the "the system is field control" flag.
pub const SYSTEM_BIT: u32 = 3;
/// The bit that marks a status as set by the debugger.
pub const GDB_OVERRIDE_BIT: u32 = 31;

/// The competition status word that `vexCompetitionStatus` returns.
#[derive(Debug, Clone, Copy, PartialEq, Eq, Structural)]
pub struct CompetitionStatus {
    raw_value: u32,
}

impl CompetitionStatus {
    /// The status word.
    pub closed spec fn spec_raw(self) -> u32 {
        self.raw_value
    }

    /// Whether the robot is disabled.
    pub open spec fn spec_disabled(self) -> bool {
        spec_bit(self.spec_raw(), DISABLED_BIT)
    }

    /// Whether the robot is in autonomous mode.
    pub open spec fn spec_autonomous(self) -> bool {
        spec_bit(self.spec_raw(), AUTONOMOUS_BIT)
    }

    /// Whether a competition system is connected.
    pub open spec fn spec_connected(self) -> bool {
        spec_bit(self.spec_raw(), CONNECTED_BIT)
    }

    /// Whether the competition system is field control (rather than a competition switch).
    pub open spec fn spec_system(self) -> bool {
        spec_bit(self.spec_raw(), SYSTEM_BIT)
    }

    /// Whether the status was set by the debugger.
    pub open spec fn spec_gdb_override(self) -> bool {
        spec_bit(self.spec_raw(), GDB_OVERRIDE_BIT)
    }

    /// The status with every bit clear.
    pub fn zero() -> (r: Self)
        ensures
            r.spec_raw() == 0,
    {
        CompetitionStatus { raw_value: 0 }
    }

    /// The status with the given word.
    pub fn new_with_raw_value(raw_value: u32) -> (r: Self)
        ensures
            r.spec_raw() == raw_value,
    {
        CompetitionStatus { raw_value }
    }

    /// The status word.
    pub fn raw_value(self) -> (r: u32)
        ensures
            r == self.spec_raw(),
    {
        self.raw_value
    }

    /// Whether the robot is disabled.
    pub fn disabled(self) -> (r: bool)
        ensures
            r == self.spec_disabled(),
    {
        bit(self.raw_value, DISABLED_BIT)
    }

    /// Whether the robot is in autonomous mode.
    pub fn autonomous(self) -> (r: bool)
        ensures
            r == self.spec_autonomous(),
    {
        bit(self.raw_value, AUTONOMOUS_BIT)
    }

    /// Whether a competition system is connected.
    pub fn connected(self) -> (r: bool)
        ensures
            r == self.spec_connected(),
    {
        bit(self.raw_value, CONNECTED_BIT)
    }

    /// Whether the competition system is field control.
    pub fn system(self) -> (r: bool)
        ensures
            r == self.spec_system(),
    {
        bit(self.raw_value, SYSTEM_BIT)
    }

    /// Whether the status was set by the debugger.
    pub fn gdb_override(self) -> (r: bool)
        ensures
            r == self.spec_gdb_override(),
    {
        bit(self.raw_value, GDB_OVERRIDE_BIT)
    }

    /// The status with the "disabled" flag set to `value`.
    pub fn with_disabled(self, value: bool) -> (r: Self)
        ensures
            r.spec_raw() == spec_with_bit(self.spec_raw(), DISABLED_BIT, value),
    {
        CompetitionStatus { raw_value: with_bit(self.raw_value, DISABLED_BIT, value) }
    }

    /// The status with the "autonomous" flag set to `value`.
    pub fn with_autonomous(self, value: bool) -> (r: Self)
        ensures
            r.spec_raw() == spec_with_bit(self.spec_raw(), AUTONOMOUS_BIT, value),
    {
        CompetitionStatus { raw_value: with_bit(self.raw_value, AUTONOMOUS_BIT, value) }
    }

    /// The status with the "connected" flag set to `value`.
    pub fn with_connected(self, value: bool) -> (r: Self)
        ensures
            r.spec_raw() == spec_with_bit(self.spec_raw(), CONNECTED_BIT, value),
    {
        CompetitionStatus { raw_value: with_bit(self.raw_value, CONNECTED_BIT, value) }
    }

    /// The status with the "field control" flag set to `value`.
    pub fn with_system(self, value: bool) -> (r: Self)
        ensures
            r.spec_raw() == spec_with_bit(self.spec_raw(), SYSTEM_BIT, value),
    {
        CompetitionStatus { raw_value: with_bit(self.raw_value, SYSTEM_BIT, value) }
    }

    /// The status with the debugger's marker set to `value`.
    pub fn with_gdb_override(self, value: bool) -> (r: Self)
        ensures
            r.spec_raw() == spec_with_bit(self.spec_raw(), GDB_OVERRIDE_BIT, value),
    {
        CompetitionStatus { raw_value: with_bit(self.raw_value, GDB_OVERRIDE_BIT, value) }
    }

    /// The name of the mode: disabled, autonomous or opcontrol (driver control).
    pub open spec fn spec_mode_name(self) -> Seq<char> {
        if self.spec_disabled() {
            "disabled"@
        } else if self.spec_autonomous() {
            "autonomous"@
        } else {
            "opcontrol"@
        }
    }

    /// The name of the competition system: field control, competition switch or none.
    pub open spec fn spec_system_name(self) -> Seq<char> {
        if self.spec_connected() {
            if self.spec_system() {
                "field-control"@
            } else {
                "competition-switch"@
            }
        } else {
            "disconnected"@
        }
    }

    /// Returns the name of the mode.
    pub fn mode_name(self) -> (r: &'static str)
        ensures
            r@ == self.spec_mode_name(),
    {
        if self.disabled() {
            "disabled"
        } else if self.autonomous() {
            "autonomous"
        } else {
            "opcontrol"
        }
    }

    /// Returns the name of the competition system.
    pub fn system_name(self) -> (r: &'static str)
        ensures
            r@ == self.spec_system_name(),
    {
        if self.connected() {
            if self.system() {
                "field-control"
            } else {
                "competition-switch"
            }
        } else {
            "disconnected"
        }
    }

    /// The human-readable form `mode/system`, as the debug console shows it.
    pub fn describe(self) -> (r: String)
        ensures
            r@ == self.spec_mode_name() + "/"@ + self.spec_system_name(),
    {
        let mut s = String::from_str(self.mode_name());
        s.append("/");
        s.append(self.system_name());
        s
    }
}

/// The layout of the status word: bit 0 is the disabled flag, bit 1 the autonomous flag, bit 2
/// the connected flag, bit 3 the field control flag and bit 31 the debugger's marker. The mode is
/// named `disabled` when the robot is disabled, `autonomous` when it is in autonomous and not
/// disabled, `opcontrol` otherwise; the system `field-control` or `competition-switch` when one
/// is connected, `disconnected` otherwise.
pub proof fn lemma_status_layout(s: CompetitionStatus)
    ensures
        s.spec_disabled() == (s.spec_raw() & 0x1 != 0),
        s.spec_autonomous() == (s.spec_raw() & 0x2 != 0),
        s.spec_connected() == (s.spec_raw() & 0x4 != 0),
        s.spec_system() == (s.spec_raw() & 0x8 != 0),
        s.spec_gdb_override() == (s.spec_raw() & 0x8000_0000 != 0),
        s.spec_raw() & 0x1 != 0 ==> s.spec_mode_name() == "disabled"@,
        s.spec_raw() & 0x3 == 0x2 ==> s.spec_mode_name() == "autonomous"@,
        s.spec_raw() & 0x3 == 0 ==> s.spec_mode_name() == "opcontrol"@,
        s.spec_raw() & 0xC == 0xC ==> s.spec_system_name() == "field-control"@,
        s.spec_raw() & 0xC == 0x4 ==> s.spec_system_name() == "competition-switch"@,
        s.spec_raw() & 0x4 == 0 ==> s.spec_system_name() == "disconnected"@,
{
    let raw = s.spec_raw();
    assert(spec_bit(raw, 0) == (raw & 0x1 != 0)) by (bit_vector);
    assert(spec_bit(raw, 1) == (raw & 0x2 != 0)) by (bit_vector);
    assert(spec_bit(raw, 2) == (raw & 0x4 != 0)) by (bit_vector);
    assert(spec_bit(raw, 3) == (raw & 0x8 != 0)) by (bit_vector);
    assert(spec_bit(raw, 31) == (raw & 0x8000_0000 != 0)) by (bit_vector);
    assert((raw & 0x3 == 0x2) ==> (raw & 0x1 == 0 && raw & 0x2 != 0)) by (bit_vector);
    assert((raw & 0x3 == 0) ==> (raw & 0x1 == 0 && raw & 0x2 == 0)) by (bit_vector);
    assert((raw & 0xC == 0xC) ==> (raw & 0x4 != 0 && raw & 0x8 != 0)) by (bit_vector);
    assert((raw & 0xC == 0x4) ==> (raw & 0x4 != 0 && raw & 0x8 == 0)) by (bit_vector);
}

/// The debugger's competition status override, as stored: zero when there is none, otherwise the
/// status with the debugger's marker bit set.
#[derive(Debug, Clone, Copy, PartialEq, Eq, Structural)]
pub struct CompetitionOverride {
    raw_value: u32,
}

impl CompetitionOverride {
    /// The stored word.
    pub closed spec fn spec_raw(self) -> u32 {
        self.raw_value
    }

    /// No override.
    pub fn new() -> (r: Self)
        ensures
            r.spec_raw() == 0,
    {
        CompetitionOverride { raw_value: 0 }
    }

    /// An override slot holding the given word.
    pub fn from_raw(raw_value: u32) -> (r: Self)
        ensures
            r.spec_raw() == raw_value,
    {
        CompetitionOverride { raw_value }
    }

    /// The stored word.
    pub fn raw_value(self) -> (r: u32)
        ensures
            r == self.spec_raw(),
    {
        self.raw_value
    }
}

/// Sets (`Some`) or clears (`None`) the override. A set override is stored with the debugger's
/// marker bit set; a cleared one as zero.
pub fn set_override(slot: &mut CompetitionOverride, value: Option<CompetitionStatus>)
    ensures
        final(slot).spec_raw() == match value {
            Some(status) => spec_with_bit(status.spec_raw(), GDB_OVERRIDE_BIT, true),
            None => 0,
        },
{
    let status = if let Some(status) = value {
        status.with_gdb_override(true)
    } else {
        CompetitionStatus::zero()
    };
    slot.raw_value = status.raw_value();
}

/// The override, if the debugger set one: the stored status without the marker bit.
pub fn read_override(slot: &CompetitionOverride) -> (r: Option<CompetitionStatus>)
    ensures
        if spec_bit(slot.spec_raw(), GDB_OVERRIDE_BIT) {
            r matches Some(status) && status.spec_raw() == spec_with_bit(slot.spec_raw(), GDB_OVERRIDE_BIT, false)
        } else {
            r is None
        },
{
    let status_override = CompetitionStatus::new_with_raw_value(slot.raw_value);
    if !status_override.gdb_override() {
        return None;
    }
    Some(status_override.with_gdb_override(false))
}

/// The status user code sees: the override if there is one, the real status otherwise.
pub fn read_status(slot: &CompetitionOverride, real_status: CompetitionStatus) -> (r: CompetitionStatus)
    ensures
        if spec_bit(slot.spec_raw(), GDB_OVERRIDE_BIT) {
            r.spec_raw() == spec_with_bit(slot.spec_raw(), GDB_OVERRIDE_BIT, false)
        } else {
            r == real_status
        },
{
    if let Some(status_override) = read_override(slot) {
        return status_override;
    }
    real_status
}

/// Reading the override gives back the status that was set, except for the marker bit, which is
/// always clear; reading after clearing gives nothing.
pub proof fn lemma_read_after_set(value: Option<CompetitionStatus>, stored: u32)
    requires
        stored == match value {
            Some(status) => spec_with_bit(status.spec_raw(), GDB_OVERRIDE_BIT, true),
            None => 0,
        },
    ensures
        match value {
            Some(status) => spec_bit(stored, GDB_OVERRIDE_BIT) && spec_with_bit(stored, GDB_OVERRIDE_BIT, false)
                == spec_with_bit(status.spec_raw(), GDB_OVERRIDE_BIT, false),
            None => !spec_bit(stored, GDB_OVERRIDE_BIT),
        },
{
    match value {
        Some(status) => {
            let raw = status.spec_raw();
            assert(spec_bit(raw | (1u32 << 31u32), 31)) by (bit_vector);
            assert((raw | (1u32 << 31u32)) & !(1u32 << 31u32) == raw & !(1u32 << 31u32)) by (bit_vector);
        },
        None => {
            assert(!spec_bit(0, 31)) by (bit_vector);
        },
    }
}

} // verus!
