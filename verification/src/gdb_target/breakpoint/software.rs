//! Software breakpoints: instructions patched with `BKPT`.

use vstd::prelude::*;

use super::BreakpointError;
use crate::cpu::instruction::Instruction;

verus! {

/// The ARM encoding of `BKPT #0`.
pub const ARM_BKPT: u32 = 0xE120_0070;

/// The Thumb encoding of `BKPT #0`.
pub const THUMB_BKPT: u16 = 0xBE00;

/// Who asked for a software breakpoint. A breakpoint stays in place while either asks for it.
#[derive(Debug, Clone, Copy, PartialEq, Eq, Structural)]
pub struct BreakReason {
    /// The GDB client placed it.
    pub user: bool,
    /// The debugger placed it for its own bookkeeping.
    pub internal: bool,
}

/// A software breakpoint: the instruction at `addr` is replaced with `BKPT` while it is enabled.
#[derive(Debug, Clone, Copy)]
pub struct SwBreakpoint {
    /// The address of the patched instruction.
    pub addr: u32,
    /// The instruction that was there before it was patched.
    pub replaced: Instruction,
    /// Whether the `BKPT` instruction is currently in place.
    pub enabled: bool,
    /// Who asked for the breakpoint.
    pub reason: BreakReason,
}

/// The `BKPT` instruction of the given instruction set.
pub open spec fn spec_bkpt(thumb: bool) -> Instruction {
    if thumb {
        Instruction::Thumb16(THUMB_BKPT)
    } else {
        Instruction::Arm(ARM_BKPT)
    }
}

impl SwBreakpoint {
    /// Whether the breakpoint patches a Thumb instruction.
    pub open spec fn spec_thumb(&self) -> bool {
        self.replaced.spec_is_thumb()
    }

    /// The instruction that should currently be at the breakpoint's address.
    pub open spec fn spec_site_instruction(&self) -> Instruction {
        if self.enabled {
            spec_bkpt(self.spec_thumb())
        } else {
            self.replaced
        }
    }

    /// Whether the breakpoint patches a Thumb instruction.
    pub fn is_thumb(&self) -> (r: bool)
        ensures
            r == self.spec_thumb(),
    {
        self.replaced.is_thumb()
    }

    /// Enables or disables the breakpoint.
    pub fn set_enabled(&mut self, enabled: bool)
        ensures
            *final(self) == (SwBreakpoint { enabled, ..*old(self) }),
    {
        self.enabled = enabled;
    }

    /// The instruction that must be written at the breakpoint's address: `BKPT` of the matching
    /// instruction set while it is enabled, the replaced instruction otherwise.
    pub fn site_instruction(&self) -> (r: Instruction)
        ensures
            r == self.spec_site_instruction(),
    {
        if self.enabled {
            if self.replaced.is_thumb() {
                Instruction::Thumb16(THUMB_BKPT)
            } else {
                Instruction::Arm(ARM_BKPT)
            }
        } else {
            self.replaced
        }
    }
}

/// The slots with every breakpoint's `enabled` flag set to `enabled`.
pub open spec fn spec_slots_with_enabled(slots: Seq<Option<SwBreakpoint>>, enabled: bool) -> Seq<Option<SwBreakpoint>> {
    Seq::new(
        slots.len(),
        |i: int|
            match slots[i] {
                Some(b) => Some(SwBreakpoint { enabled, ..b }),
                None => None,
            },
    )
}

/// Whether a slot holds a breakpoint at `addr`.
pub open spec fn spec_sw_at(slot: Option<SwBreakpoint>, addr: u32) -> bool {
    slot matches Some(b) && b.addr == addr
}

/// Whether some slot holds a breakpoint at `addr`.
pub open spec fn spec_sw_has_addr(slots: Seq<Option<SwBreakpoint>>, addr: u32) -> bool {
    exists|i: int| 0 <= i < slots.len() && #[trigger] spec_sw_at(slots[i], addr)
}

/// Whether `i` is the first free slot.
pub open spec fn spec_sw_first_free(slots: Seq<Option<SwBreakpoint>>, i: int) -> bool {
    &&& 0 <= i < slots.len()
    &&& slots[i] is None
    &&& forall|j: int| 0 <= j < i ==> #[trigger] slots[j] is Some
}

/// Whether the breakpoint was asked for by the debugger itself (`internal`) or by the user.
pub open spec fn spec_has_reason(b: SwBreakpoint, internal: bool) -> bool {
    if internal {
        b.reason.internal
    } else {
        b.reason.user
    }
}

/// The breakpoint with one of its two reasons set to `value`.
pub open spec fn spec_with_reason(b: SwBreakpoint, internal: bool, value: bool) -> SwBreakpoint {
    if internal {
        SwBreakpoint { reason: BreakReason { internal: value, ..b.reason }, ..b }
    } else {
        SwBreakpoint { reason: BreakReason { user: value, ..b.reason }, ..b }
    }
}

/// Whether an instruction at `addr` is aligned as its instruction set requires.
pub open spec fn spec_instruction_aligned(addr: u32, replaced: Instruction) -> bool {
    if replaced.spec_is_thumb() {
        addr % 2 == 0
    } else {
        addr % 4 == 0
    }
}

/// The slots after the breakpoint at `addr` loses one of its reasons: it disappears when none is left.
pub open spec fn spec_slot_after_removal(slot: Option<SwBreakpoint>, addr: u32, internal: bool) -> Option<SwBreakpoint> {
    match slot {
        Some(b) => if b.addr == addr && spec_has_reason(b, internal) {
            let nb = spec_with_reason(b, internal, false);
            if nb.reason.user || nb.reason.internal {
                Some(nb)
            } else {
                None
            }
        } else {
            slot
        },
        None => None,
    }
}

/// The table of software breakpoint slots.
///
/// No two breakpoints share an address, every breakpoint has a reason, and every breakpoint is
/// enabled exactly when breakpoints are not paused.
pub struct SwBreakpointTable {
    paused: bool,
    slots: Vec<Option<SwBreakpoint>>,
}

impl SwBreakpointTable {
    /// The contents of the slots; a breakpoint's id is its slot index.
    pub closed spec fn spec_slots(&self) -> Seq<Option<SwBreakpoint>> {
        self.slots@
    }

    /// Whether breakpoints are paused (ignored).
    pub closed spec fn spec_paused(&self) -> bool {
        self.paused
    }

    /// Whether a slot sequence is consistent with the pause flag.
    pub open spec fn spec_slots_wf(slots: Seq<Option<SwBreakpoint>>, paused: bool) -> bool {
        &&& forall|i: int, j: int|
            0 <= i < slots.len() && 0 <= j < slots.len() && i != j && #[trigger] slots[i] is Some
                && #[trigger] slots[j] is Some ==> slots[i].unwrap().addr != slots[j].unwrap().addr
        &&& forall|i: int|
            0 <= i < slots.len() && #[trigger] slots[i] is Some ==> slots[i].unwrap().enabled == !paused
                && (slots[i].unwrap().reason.user || slots[i].unwrap().reason.internal)
    }

    #[verifier::type_invariant]
    closed spec fn wf(&self) -> bool {
        Self::spec_slots_wf(self.slots@, self.paused)
    }

    /// An empty table with `num_slots` slots; breakpoints are not paused.
    pub fn new(num_slots: usize) -> (r: Self)
        ensures
            r.spec_slots() == Seq::<Option<SwBreakpoint>>::new(num_slots as nat, |i: int| None),
            !r.spec_paused(),
    {
        let mut slots: Vec<Option<SwBreakpoint>> = Vec::new();
        let mut i: usize = 0;
        while i < num_slots
            invariant
                i <= num_slots,
                slots@.len() == i,
                forall|j: int| 0 <= j < i ==> #[trigger] slots@[j] is None,
            decreases num_slots - i,
        {
            slots.push(None);
            i = i + 1;
        }
        assert(slots@ =~= Seq::<Option<SwBreakpoint>>::new(num_slots as nat, |i: int| None));
        SwBreakpointTable { paused: false, slots }
    }

    /// Whether breakpoints are paused.
    pub fn is_paused(&self) -> (r: bool)
        ensures
            r == self.spec_paused(),
    {
        self.paused
    }

    /// The number of slots.
    pub fn capacity(&self) -> (r: usize)
        ensures
            r == self.spec_slots().len(),
    {
        self.slots.len()
    }

    /// The breakpoint with the given id, if any.
    pub fn get(&self, id: usize) -> (r: Option<SwBreakpoint>)
        ensures
            id < self.spec_slots().len() ==> r == self.spec_slots()[id as int],
            id >= self.spec_slots().len() ==> r is None,
            r matches Some(b) ==> b.enabled == !self.spec_paused() && (b.reason.user || b.reason.internal),
    {
        proof { use_type_invariant(self); }
        if id < self.slots.len() {
            self.slots[id]
        } else {
            None
        }
    }

    /// The id of the breakpoint at `addr`, if any.
    pub fn find(&self, addr: u32) -> (r: Option<usize>)
        ensures
            r matches Some(i) ==> i < self.spec_slots().len() && spec_sw_at(self.spec_slots()[i as int], addr),
            r matches Some(i) ==> forall|j: int|
                0 <= j < self.spec_slots().len() && #[trigger] spec_sw_at(self.spec_slots()[j], addr) ==> j == i,
            r is None ==> !spec_sw_has_addr(self.spec_slots(), addr),
    {
        proof { use_type_invariant(self); }
        let mut i: usize = 0;
        while i < self.slots.len()
            invariant
                i <= self.slots@.len(),
                Self::spec_slots_wf(self.slots@, self.paused),
                forall|j: int| 0 <= j < i ==> !spec_sw_at(#[trigger] self.slots@[j], addr),
            decreases self.slots@.len() - i,
        {
            if let Some(b) = self.slots[i] {
                if b.addr == addr {
                    proof {
                        assert forall|j: int|
                            0 <= j < self.slots@.len() && #[trigger] spec_sw_at(self.slots@[j], addr) implies j == i by {
                            if j != i {
                                assert(self.slots@[j] is Some && self.slots@[i as int] is Some);
                            }
                        }
                    }
                    return Some(i);
                }
            }
            i = i + 1;
        }
        None
    }

    fn first_free(&self) -> (r: Option<usize>)
        ensures
            r matches Some(i) ==> spec_sw_first_free(self.slots@, i as int),
            r is None ==> forall|j: int| 0 <= j < self.slots@.len() ==> #[trigger] self.slots@[j] is Some,
    {
        let mut i: usize = 0;
        while i < self.slots.len()
            invariant
                i <= self.slots@.len(),
                forall|j: int| 0 <= j < i ==> #[trigger] self.slots@[j] is Some,
            decreases self.slots@.len() - i,
        {
            if self.slots[i].is_none() {
                return Some(i);
            }
            i = i + 1;
        }
        None
    }

    /// Pauses (`ignored`) or resumes every breakpoint: each one is disabled while paused and
    /// enabled otherwise. Nothing else changes, so setting the flag back to what it was gives
    /// every breakpoint back as it was.
    pub fn set_paused(&mut self, ignored: bool)
        ensures
            final(self).spec_paused() == ignored,
            final(self).spec_slots() == spec_slots_with_enabled(old(self).spec_slots(), !ignored),
            spec_slots_with_enabled(final(self).spec_slots(), !old(self).spec_paused()) == old(self).spec_slots(),
    {
        proof { use_type_invariant(&*self); }
        let ghost old_slots = self.slots@;
        let mut slots: Vec<Option<SwBreakpoint>> = Vec::new();
        std::mem::swap(&mut slots, &mut self.slots);
        let mut i: usize = 0;
        while i < slots.len()
            invariant
                i <= slots@.len(),
                slots@.len() == old_slots.len(),
                forall|j: int| 0 <= j < i ==> #[trigger] slots@[j] == match old_slots[j] {
                    Some(b) => Some(SwBreakpoint { enabled: !ignored, ..b }),
                    None => None,
                },
                forall|j: int| i <= j < slots@.len() ==> #[trigger] slots@[j] == old_slots[j],
            decreases slots@.len() - i,
        {
            if let Some(mut b) = slots[i] {
                b.set_enabled(!ignored);
                slots.set(i, Some(b));
            }
            i = i + 1;
        }
        proof {
            assert forall|a: int, c: int|
                0 <= a < slots@.len() && 0 <= c < slots@.len() && a != c && #[trigger] slots@[a] is Some
                    && #[trigger] slots@[c] is Some implies slots@[a].unwrap().addr != slots@[c].unwrap().addr by {
                assert(old_slots[a] is Some && old_slots[c] is Some);
            }
            assert forall|a: int| 0 <= a < slots@.len() && #[trigger] slots@[a] is Some implies slots@[a].unwrap().enabled == !ignored
                && (slots@[a].unwrap().reason.user || slots@[a].unwrap().reason.internal) by {
                assert(old_slots[a] is Some);
            }
        }
        proof {
            assert(slots@ =~= spec_slots_with_enabled(old_slots, !ignored));
            let restore = !self.paused;
            assert forall|a: int| 0 <= a < old_slots.len() implies #[trigger] spec_slots_with_enabled(slots@, restore)[a]
                == old_slots[a] by {
                if old_slots[a] is Some {
                    assert(old_slots[a].unwrap().enabled == !self.paused);
                }
            }
            assert(spec_slots_with_enabled(slots@, restore) =~= old_slots);
        }
        *self = SwBreakpointTable { paused: ignored, slots };
    }

    /// The id of the breakpoint at `addr` (meaningful when there is one).
    pub open spec fn spec_index_of(&self, addr: u32) -> int {
        choose|i: int| 0 <= i < self.spec_slots().len() && #[trigger] spec_sw_at(self.spec_slots()[i], addr)
    }

    /// The first free slot (meaningful when there is one).
    pub open spec fn spec_first_free_index(&self) -> int {
        choose|i: int| spec_sw_first_free(self.spec_slots(), i)
    }

    /// Whether some slot is free.
    pub open spec fn spec_has_free(&self) -> bool {
        exists|j: int| 0 <= j < self.spec_slots().len() && #[trigger] self.spec_slots()[j] is None
    }

    /// What placing a breakpoint returns (see [`Self::register`]).
    pub open spec fn spec_register_result(
        &self,
        addr: u32,
        replaced: Instruction,
        internal: bool,
        writable: bool,
    ) -> Result<usize, BreakpointError> {
        if !spec_instruction_aligned(addr, replaced) {
            Err(BreakpointError::NotAlignedCorrectly)
        } else if spec_sw_has_addr(self.spec_slots(), addr) {
            if spec_has_reason(self.spec_slots()[self.spec_index_of(addr)].unwrap(), internal) {
                Err(BreakpointError::AlreadyExists)
            } else {
                Ok(self.spec_index_of(addr) as usize)
            }
        } else if !writable {
            Err(BreakpointError::CannotWrite)
        } else if self.spec_has_free() {
            Ok(self.spec_first_free_index() as usize)
        } else {
            Err(BreakpointError::NoSpace)
        }
    }

    /// The slots after placing a breakpoint (see [`Self::register`]).
    pub open spec fn spec_slots_after_register(
        &self,
        addr: u32,
        replaced: Instruction,
        internal: bool,
        writable: bool,
    ) -> Seq<Option<SwBreakpoint>> {
        match self.spec_register_result(addr, replaced, internal, writable) {
            Err(_) => self.spec_slots(),
            Ok(i) => if spec_sw_has_addr(self.spec_slots(), addr) {
                self.spec_slots().update(
                    i as int,
                    Some(spec_with_reason(self.spec_slots()[i as int].unwrap(), internal, true)),
                )
            } else {
                self.spec_slots().update(
                    i as int,
                    Some(
                        SwBreakpoint {
                            addr,
                            replaced,
                            enabled: !self.spec_paused(),
                            reason: BreakReason { user: !internal, internal },
                        },
                    ),
                )
            },
        }
    }

    /// Places a breakpoint at `addr`, or adds a reason to the breakpoint already there.
    ///
    /// `replaced` is the instruction found at `addr` and `writable` says whether that memory can
    /// be patched. Returns the breakpoint's id. Fails with `NotAlignedCorrectly` when `addr` is
    /// not aligned for the instruction set of `replaced`; with `AlreadyExists` when the breakpoint
    /// there already has this reason; for a new breakpoint, with `CannotWrite` when the memory is
    /// not writable and with `NoSpace` when every slot is used. On failure nothing changes. A new
    /// breakpoint goes to the first free slot and is enabled unless breakpoints are paused.
    pub fn register(&mut self, addr: u32, replaced: Instruction, internal: bool, writable: bool) -> (r: Result<usize, BreakpointError>)
        ensures
            r == old(self).spec_register_result(addr, replaced, internal, writable),
            final(self).spec_slots() == old(self).spec_slots_after_register(addr, replaced, internal, writable),
            final(self).spec_paused() == old(self).spec_paused(),
    {
        proof { use_type_invariant(&*self); }
        let aligned = if replaced.is_thumb() {
            addr % 2 == 0
        } else {
            addr % 4 == 0
        };
        if !aligned {
            return Err(BreakpointError::NotAlignedCorrectly);
        }
        let ghost old_slots = self.slots@;
        if let Some(i) = self.find(addr) {
            let b = self.slots[i].unwrap();
            let present = if internal {
                b.reason.internal
            } else {
                b.reason.user
            };
            if present {
                proof {
                    assert forall|k: int| 0 <= k < old_slots.len() && #[trigger] spec_sw_at(old_slots[k], addr) implies k == i by {
                        if k != i {
                            assert(old_slots[k] is Some && old_slots[i as int] is Some);
                        }
                    }
                    assert(spec_sw_at(old_slots[i as int], addr));
                    assert(old(self).spec_index_of(addr) == i);
                }
                return Err(BreakpointError::AlreadyExists);
            }
            let mut nb = b;
            if internal {
                nb.reason.internal = true;
            } else {
                nb.reason.user = true;
            }
            let mut slots: Vec<Option<SwBreakpoint>> = Vec::new();
            std::mem::swap(&mut slots, &mut self.slots);
            slots.set(i, Some(nb));
            proof {
                assert(nb == spec_with_reason(b, internal, true));
                assert forall|a: int, c: int|
                    0 <= a < slots@.len() && 0 <= c < slots@.len() && a != c && #[trigger] slots@[a] is Some
                        && #[trigger] slots@[c] is Some implies slots@[a].unwrap().addr != slots@[c].unwrap().addr by {
                    assert(old_slots[a] is Some && old_slots[c] is Some);
                }
                assert forall|a: int| 0 <= a < slots@.len() && #[trigger] slots@[a] is Some implies slots@[a].unwrap().enabled == !self.paused
                    && (slots@[a].unwrap().reason.user || slots@[a].unwrap().reason.internal) by {
                    assert(old_slots[a] is Some);
                }
                assert forall|k: int| 0 <= k < old_slots.len() && #[trigger] spec_sw_at(old_slots[k], addr) implies k == i by {
                    if k != i {
                        assert(old_slots[k] is Some && old_slots[i as int] is Some);
                    }
                }
                assert(spec_sw_at(old_slots[i as int], addr));
                assert(old(self).spec_index_of(addr) == i);
            }
            self.slots = slots;
            return Ok(i);
        }
        if !writable {
            return Err(BreakpointError::CannotWrite);
        }
        match self.first_free() {
            None => Err(BreakpointError::NoSpace),
            Some(i) => {
                let bp = SwBreakpoint {
                    addr,
                    replaced,
                    enabled: !self.paused,
                    reason: BreakReason { user: !internal, internal },
                };
                let mut slots: Vec<Option<SwBreakpoint>> = Vec::new();
                std::mem::swap(&mut slots, &mut self.slots);
                slots.set(i, Some(bp));
                proof {
                    assert forall|a: int, c: int|
                        0 <= a < slots@.len() && 0 <= c < slots@.len() && a != c && #[trigger] slots@[a] is Some
                            && #[trigger] slots@[c] is Some implies slots@[a].unwrap().addr != slots@[c].unwrap().addr by {
                        if a == i {
                            assert(!spec_sw_at(old_slots[c], addr));
                        } else if c == i {
                            assert(!spec_sw_at(old_slots[a], addr));
                        } else {
                            assert(old_slots[a] is Some && old_slots[c] is Some);
                        }
                    }
                    assert forall|a: int| 0 <= a < slots@.len() && #[trigger] slots@[a] is Some implies slots@[a].unwrap().enabled == !self.paused
                        && (slots@[a].unwrap().reason.user || slots@[a].unwrap().reason.internal) by {
                        if a != i {
                            assert(old_slots[a] is Some);
                        }
                    }
                    assert(old_slots[i as int] is None);
                    assert forall|k: int| spec_sw_first_free(old_slots, k) implies k == i by {
                        if k < i {
                            assert(old_slots[k] is Some);
                        } else if k > i {
                            assert(old_slots[i as int] is Some);
                        }
                    }
                    assert(old(self).spec_first_free_index() == i);
                }
                self.slots = slots;
                Ok(i)
            },
        }
    }

    /// Withdraws one reason (`internal` or user) from the breakpoint at `addr`; the breakpoint is
    /// removed once it has no reason left. Returns whether that breakpoint had the reason.
    pub fn remove(&mut self, addr: u32, internal: bool) -> (r: bool)
        ensures
            final(self).spec_paused() == old(self).spec_paused(),
            r == exists|i: int|
                0 <= i < old(self).spec_slots().len() && #[trigger] spec_sw_at(old(self).spec_slots()[i], addr)
                    && spec_has_reason(old(self).spec_slots()[i].unwrap(), internal),
            final(self).spec_slots().len() == old(self).spec_slots().len(),
            forall|i: int|
                0 <= i < old(self).spec_slots().len() ==> #[trigger] final(self).spec_slots()[i] == spec_slot_after_removal(
                    old(self).spec_slots()[i],
                    addr,
                    internal,
                ),
    {
        proof { use_type_invariant(&*self); }
        let ghost old_slots = self.slots@;
        match self.find(addr) {
            None => {
                proof {
                    assert forall|i: int| 0 <= i < old_slots.len() implies #[trigger] old_slots[i] == spec_slot_after_removal(
                        old_slots[i], addr, internal) by {
                        assert(!spec_sw_at(old_slots[i], addr));
                    }
                    assert(old_slots =~= old_slots);
                }
                false
            },
            Some(i) => {
                let b = self.slots[i].unwrap();
                let present = if internal {
                    b.reason.internal
                } else {
                    b.reason.user
                };
                proof {
                    assert forall|k: int| 0 <= k < old_slots.len() && #[trigger] spec_sw_at(old_slots[k], addr) implies k == i by {
                        if k != i {
                            assert(old_slots[k] is Some && old_slots[i as int] is Some);
                        }
                    }
                }
                if !present {
                    proof {
                        assert forall|k: int| 0 <= k < old_slots.len() implies #[trigger] old_slots[k] == spec_slot_after_removal(
                            old_slots[k], addr, internal) by {
                            if spec_sw_at(old_slots[k], addr) {
                                assert(k == i);
                            }
                        }
                    }
                    return false;
                }
                let mut nb = b;
                if internal {
                    nb.reason.internal = false;
                } else {
                    nb.reason.user = false;
                }
                let new_slot = if nb.reason.user || nb.reason.internal {
                    Some(nb)
                } else {
                    None
                };
                let mut slots: Vec<Option<SwBreakpoint>> = Vec::new();
                std::mem::swap(&mut slots, &mut self.slots);
                slots.set(i, new_slot);
                proof {
                    assert(nb == spec_with_reason(b, internal, false));
                    assert forall|k: int| 0 <= k < old_slots.len() implies #[trigger] slots@[k] == spec_slot_after_removal(
                        old_slots[k], addr, internal) by {
                        if k != i && spec_sw_at(old_slots[k], addr) {
                            assert(k == i);
                        }
                    }
                    assert forall|a: int, c: int|
                        0 <= a < slots@.len() && 0 <= c < slots@.len() && a != c && #[trigger] slots@[a] is Some
                            && #[trigger] slots@[c] is Some implies slots@[a].unwrap().addr != slots@[c].unwrap().addr by {
                        assert(old_slots[a] is Some && old_slots[c] is Some);
                    }
                    assert forall|a: int| 0 <= a < slots@.len() && #[trigger] slots@[a] is Some implies slots@[a].unwrap().enabled == !self.paused
                        && (slots@[a].unwrap().reason.user || slots@[a].unwrap().reason.internal) by {
                        assert(old_slots[a] is Some);
                    }
                    assert(spec_sw_at(old_slots[i as int], addr));
                }
                self.slots = slots;
                true
            },
        }
    }
}

/// A software breakpoint is refused for its alignment exactly when its address does not suit the
/// instruction it replaces: a Thumb instruction, 16-bit or 32-bit, is read as halfwords and needs
/// an even address; an ARM instruction needs an address on a 4-byte boundary.
pub proof fn lemma_register_alignment(
    table: SwBreakpointTable,
    addr: u32,
    replaced: Instruction,
    internal: bool,
    writable: bool,
)
    ensures
        (replaced is Thumb16 || replaced is Thumb32) ==> (table.spec_register_result(addr, replaced, internal, writable)
            == Err::<usize, BreakpointError>(BreakpointError::NotAlignedCorrectly) <==> addr % 2 == 1),
        replaced is Arm ==> (table.spec_register_result(addr, replaced, internal, writable) == Err::<usize, BreakpointError>(
            BreakpointError::NotAlignedCorrectly,
        ) <==> addr % 4 != 0),
{
}

/// On a table that holds no breakpoint and has a slot, a breakpoint at a writable address
/// suited to its instruction (even for Thumb, a multiple of 4 for ARM) goes into the first slot.
pub proof fn lemma_register_on_empty_table(
    table: SwBreakpointTable,
    addr: u32,
    replaced: Instruction,
    internal: bool,
)
    requires
        table.spec_slots().len() > 0,
        forall|i: int| 0 <= i < table.spec_slots().len() ==> #[trigger] table.spec_slots()[i] is None,
        (replaced is Thumb16 || replaced is Thumb32) ==> addr % 2 == 0,
        replaced is Arm ==> addr % 4 == 0,
    ensures
        table.spec_register_result(addr, replaced, internal, true) == Ok::<usize, BreakpointError>(0),
{
    let slots = table.spec_slots();
    assert(slots[0] is None);
    assert(spec_sw_first_free(slots, 0));
    assert(table.spec_has_free());
    let i = table.spec_first_free_index();
    assert(spec_sw_first_free(slots, i));
    if i > 0 {
        assert(slots[0] is Some);
    }
    if spec_sw_has_addr(slots, addr) {
        let k = choose|k: int| 0 <= k < slots.len() && #[trigger] spec_sw_at(slots[k], addr);
        assert(slots[k] is None);
    }
}

/// When some slot is free, the first free slot exists.
pub proof fn lemma_first_free_exists(slots: Seq<Option<SwBreakpoint>>, j: int)
    requires
        0 <= j < slots.len(),
        slots[j] is None,
    ensures
        exists|i: int| spec_sw_first_free(slots, i),
    decreases j,
{
    if forall|k: int| 0 <= k < j ==> #[trigger] slots[k] is Some {
        assert(spec_sw_first_free(slots, j));
    } else {
        let k = choose|k: int| 0 <= k < j && !(#[trigger] slots[k] is Some);
        lemma_first_free_exists(slots, k);
    }
}

/// Placing a new breakpoint and then withdrawing the same reason leaves every slot as it was.
pub proof fn lemma_register_then_remove(table: SwBreakpointTable, addr: u32, replaced: Instruction, internal: bool)
    requires
        table.spec_slots().len() <= usize::MAX,
        spec_instruction_aligned(addr, replaced),
        !spec_sw_has_addr(table.spec_slots(), addr),
        table.spec_has_free(),
    ensures
        table.spec_register_result(addr, replaced, internal, true) is Ok,
        ({
            let after = table.spec_slots_after_register(addr, replaced, internal, true);
            &&& after.len() == table.spec_slots().len()
            &&& forall|i: int| 0 <= i < after.len() ==> spec_slot_after_removal(#[trigger] after[i], addr, internal)
                == table.spec_slots()[i]
        }),
{
    let slots = table.spec_slots();
    let j = choose|j: int| 0 <= j < slots.len() && #[trigger] slots[j] is None;
    lemma_first_free_exists(slots, j);
    let i0 = table.spec_first_free_index();
    assert(spec_sw_first_free(slots, i0));
    let after = table.spec_slots_after_register(addr, replaced, internal, true);
    assert(table.spec_register_result(addr, replaced, internal, true) == Ok::<usize, BreakpointError>(i0 as usize));
    assert(i0 as usize as int == i0);
    let bp = SwBreakpoint { addr, replaced, enabled: !table.spec_paused(), reason: BreakReason { user: !internal, internal } };
    assert(after == slots.update(i0, Some(bp)));
    assert forall|i: int| 0 <= i < after.len() implies spec_slot_after_removal(#[trigger] after[i], addr, internal)
        == slots[i] by {
        if i != i0 {
            assert(!spec_sw_at(slots[i], addr));
        }
    }
}

} // verus!
