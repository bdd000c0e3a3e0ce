//! Bookkeeping for the CPU's hardware breakpoint register pairs (value and control).

use vstd::prelude::*;

use super::BreakpointError;
use crate::gdb_target::arch::ArmBreakpointKind;

verus! {

/// How a hardware breakpoint compares the instruction address with its value register.
#[derive(Debug, Clone, Copy, PartialEq, Eq, Structural)]
pub enum Specificity {
    /// Trigger when an instruction at the address is executed.
    Match,
    /// Trigger when an instruction anywhere but at the address is executed (used for stepping).
    Mismatch,
}

/// One programmed hardware breakpoint.
#[derive(Debug, Clone, Copy, PartialEq, Eq, Structural)]
pub struct HwBreakpoint {
    /// The address of the instruction.
    pub addr: u32,
    /// The comparison mode.
    pub specificity: Specificity,
    /// The instruction set and size of the instruction.
    pub kind: ArmBreakpointKind,
}

/// What the breakpoint unit reports about itself.
#[derive(Debug, Clone, Copy, PartialEq, Eq, Structural)]
pub struct Capabilities {
    /// The number of breakpoint register pairs.
    pub num_breakpoints: usize,
}

/// Whether `addr` is aligned as the instruction set of `kind` requires: ARM instructions on
/// 4 bytes, Thumb instructions on 2 bytes.
pub open spec fn spec_kind_aligned(addr: u32, kind: ArmBreakpointKind) -> bool {
    match kind {
        ArmBreakpointKind::Arm32 => addr % 4 == 0,
        _ => addr % 2 == 0,
    }
}

/// Whether a slot holds a breakpoint at `addr`.
pub open spec fn spec_slot_at(slot: Option<HwBreakpoint>, addr: u32) -> bool {
    slot matches Some(b) && b.addr == addr
}

/// Whether some slot of `slots` holds a breakpoint at `addr`.
pub open spec fn spec_slots_have_addr(slots: Seq<Option<HwBreakpoint>>, addr: u32) -> bool {
    exists|i: int| 0 <= i < slots.len() && #[trigger] spec_slot_at(slots[i], addr)
}

/// Whether no two slots hold breakpoints at the same address.
pub open spec fn spec_slot_addrs_unique(slots: Seq<Option<HwBreakpoint>>) -> bool {
    forall|i: int, j: int|
        0 <= i < slots.len() && 0 <= j < slots.len() && i != j && #[trigger] slots[i] is Some
            && #[trigger] slots[j] is Some ==> slots[i].unwrap().addr != slots[j].unwrap().addr
}

/// The slots with the breakpoint at `addr`, if any, removed.
pub open spec fn spec_slots_without(slots: Seq<Option<HwBreakpoint>>, addr: u32) -> Seq<Option<HwBreakpoint>> {
    Seq::new(slots.len(), |i: int| if spec_slot_at(slots[i], addr) { None } else { slots[i] })
}

/// Whether `i` is the first free slot of `slots`.
pub open spec fn spec_first_free(slots: Seq<Option<HwBreakpoint>>, i: int) -> bool {
    &&& 0 <= i < slots.len()
    &&& slots[i] is None
    &&& forall|j: int| 0 <= j < i ==> #[trigger] slots[j] is Some
}

impl HwBreakpoint {
    /// The value the breakpoint value register holds: the word address of the instruction.
    pub open spec fn spec_value_register(self) -> u32 {
        (self.addr - self.addr % 4) as u32
    }

    /// The byte address select field: which bytes of the addressed word the breakpoint watches.
    /// An ARM instruction covers the whole word; a Thumb instruction the halfword it starts at.
    pub open spec fn spec_byte_address_select(self) -> u8 {
        match self.kind {
            ArmBreakpointKind::Arm32 => 0b1111,
            _ => if self.addr % 4 == 0 {
                0b0011
            } else {
                0b1100
            },
        }
    }

    /// Returns the value written to the breakpoint value register.
    pub fn value_register(&self) -> (r: u32)
        ensures
            r == self.spec_value_register(),
    {
        self.addr - self.addr % 4
    }

    /// Returns the byte address select field written to the breakpoint control register.
    pub fn byte_address_select(&self) -> (r: u8)
        ensures
            r == self.spec_byte_address_select(),
    {
        match self.kind {
            ArmBreakpointKind::Arm32 => 0b1111,
            _ => if self.addr % 4 == 0 {
                0b0011
            } else {
                0b1100
            },
        }
    }
}

/// A hardware breakpoint on an ARM instruction needs an address on a 4-byte boundary and watches
/// the whole word (byte address select `0b1111`); one on a Thumb instruction, 16-bit or 32-bit,
/// needs an even address and watches the lower halfword of its word (`0b0011`) when it starts
/// on a word boundary, the upper halfword (`0b1100`) otherwise. The value register holds the
/// address rounded down to its word.
pub proof fn lemma_hw_alignment_and_byte_select(addr: u32, specificity: Specificity, kind: ArmBreakpointKind)
    ensures
        kind == ArmBreakpointKind::Arm32 ==> (spec_kind_aligned(addr, kind) <==> addr % 4 == 0),
        (kind == ArmBreakpointKind::Thumb16 || kind == ArmBreakpointKind::Thumb32) ==> (spec_kind_aligned(addr, kind)
            <==> addr % 2 == 0),
        ({
            let bp = HwBreakpoint { addr, specificity, kind };
            &&& kind == ArmBreakpointKind::Arm32 ==> bp.spec_byte_address_select() == 0b1111
            &&& kind != ArmBreakpointKind::Arm32 && addr % 4 == 0 ==> bp.spec_byte_address_select() == 0b0011
            &&& kind != ArmBreakpointKind::Arm32 && addr % 4 == 2 ==> bp.spec_byte_address_select() == 0b1100
            &&& bp.spec_value_register() % 4 == 0
            &&& bp.spec_value_register() <= addr < bp.spec_value_register() + 4
        }),
{
}

/// The set of hardware breakpoint slots of the CPU's debug unit.
#[derive(Debug)]
pub struct HwBreakpointManager {
    slots: Vec<Option<HwBreakpoint>>,
}

impl HwBreakpointManager {
    /// The contents of the slots, in register order.
    pub closed spec fn spec_slots(&self) -> Seq<Option<HwBreakpoint>> {
        self.slots@
    }

    #[verifier::type_invariant]
    closed spec fn unique_addrs(&self) -> bool {
        spec_slot_addrs_unique(self.slots@)
    }

    /// A manager for a debug unit with `num_breakpoints` free slots.
    pub fn new(num_breakpoints: usize) -> (r: Self)
        ensures
            r.spec_slots() == Seq::<Option<HwBreakpoint>>::new(num_breakpoints as nat, |i: int| None),
    {
        let mut slots: Vec<Option<HwBreakpoint>> = Vec::new();
        let mut i: usize = 0;
        while i < num_breakpoints
            invariant
                i <= num_breakpoints,
                slots@.len() == i,
                forall|j: int| 0 <= j < i ==> #[trigger] slots@[j] is None,
            decreases num_breakpoints - i,
        {
            slots.push(None);
            i = i + 1;
        }
        assert(slots@ =~= Seq::<Option<HwBreakpoint>>::new(num_breakpoints as nat, |i: int| None));
        HwBreakpointManager { slots }
    }

    /// What the debug unit offers.
    pub fn capabilities(&self) -> (r: Capabilities)
        ensures
            r.num_breakpoints == self.spec_slots().len(),
    {
        Capabilities { num_breakpoints: self.slots.len() }
    }

    /// The breakpoint programmed in slot `index`, if any (`None` also for an index past the end).
    pub fn slot(&self, index: usize) -> (r: Option<HwBreakpoint>)
        ensures
            index < self.spec_slots().len() ==> r == self.spec_slots()[index as int],
            index >= self.spec_slots().len() ==> r is None,
    {
        if index < self.slots.len() {
            self.slots[index]
        } else {
            None
        }
    }

    /// The index of the slot that holds a breakpoint at `addr`, if any.
    fn find_slot(&self, addr: u32) -> (r: Option<usize>)
        ensures
            r matches Some(i) ==> i < self.slots@.len() && spec_slot_at(self.slots@[i as int], addr),
            r is None ==> !spec_slots_have_addr(self.slots@, addr),
    {
        let mut i: usize = 0;
        while i < self.slots.len()
            invariant
                i <= self.slots@.len(),
                forall|j: int| 0 <= j < i ==> !spec_slot_at(#[trigger] self.slots@[j], addr),
            decreases self.slots@.len() - i,
        {
            if let Some(b) = self.slots[i] {
                if b.addr == addr {
                    return Some(i);
                }
            }
            i = i + 1;
        }
        None
    }

    /// The index of the first free slot, if any.
    fn first_free_slot(&self) -> (r: Option<usize>)
        ensures
            r matches Some(i) ==> spec_first_free(self.slots@, i as int),
            r is None ==> forall|j: int| 0 <= j < self.slots@.len() ==> #[trigger] self.slots@[j] is Some,
    {
        let mut i: usize = 0;
        while i < self.slots.len()
            invariant
                i <= self.slots@.len(),
                forall|j: int| 0 <= j < i ==> #[trigger] self.slots@[j] is Some,
            decreases self.slots@.len() - i,
        {
            if self.slots[i].is_none() {
                return Some(i);
            }
            i = i + 1;
        }
        None
    }

    /// Whether a breakpoint is programmed at `addr`.
    pub fn has_breakpoint_at(&self, addr: u32) -> (r: bool)
        ensures
            r == spec_slots_have_addr(self.spec_slots(), addr),
    {
        self.find_slot(addr).is_some()
    }

    /// Programs a breakpoint at `addr` into the first free slot.
    ///
    /// Fails with `NotAlignedCorrectly` when `addr` is not aligned for the instruction set of
    /// `kind`, with `AlreadyExists` when a breakpoint is already programmed at `addr` and with
    /// `NoSpace` when every slot is in use; on failure nothing changes.
    pub fn add_breakpoint_at(
        &mut self,
        addr: u32,
        specificity: Specificity,
        kind: ArmBreakpointKind,
    ) -> (r: Result<(), BreakpointError>)
        ensures
            !spec_kind_aligned(addr, kind) ==> r == Err::<(), _>(BreakpointError::NotAlignedCorrectly),
            spec_kind_aligned(addr, kind) && spec_slots_have_addr(old(self).spec_slots(), addr) ==> r
                == Err::<(), _>(BreakpointError::AlreadyExists),
            spec_kind_aligned(addr, kind) && !spec_slots_have_addr(old(self).spec_slots(), addr)
                && (forall|j: int| 0 <= j < old(self).spec_slots().len() ==> #[trigger] old(self).spec_slots()[j] is Some)
                ==> r == Err::<(), _>(BreakpointError::NoSpace),
            r is Err ==> final(self).spec_slots() == old(self).spec_slots(),
            r is Ok ==> exists|i: int|
                spec_first_free(old(self).spec_slots(), i) && final(self).spec_slots()
                    == old(self).spec_slots().update(
                    i,
                    Some(HwBreakpoint { addr, specificity, kind }),
                ),
            r is Ok <==> (spec_kind_aligned(addr, kind) && !spec_slots_have_addr(old(self).spec_slots(), addr)
                && exists|j: int| 0 <= j < old(self).spec_slots().len() && #[trigger] old(self).spec_slots()[j] is None),
    {
        proof { use_type_invariant(&*self); }
        let aligned = match kind {
            ArmBreakpointKind::Arm32 => addr % 4 == 0,
            _ => addr % 2 == 0,
        };
        if !aligned {
            return Err(BreakpointError::NotAlignedCorrectly);
        }
        if self.find_slot(addr).is_some() {
            return Err(BreakpointError::AlreadyExists);
        }
        match self.first_free_slot() {
            None => Err(BreakpointError::NoSpace),
            Some(i) => {
                let bp = HwBreakpoint { addr, specificity, kind };
                let ghost old_slots = self.slots@;
                let mut slots: Vec<Option<HwBreakpoint>> = Vec::new();
                std::mem::swap(&mut slots, &mut self.slots);
                slots.set(i, Some(bp));
                proof {
                    assert(slots@ == old_slots.update(i as int, Some(bp)));
                    assert forall|a: int, b: int|
                        0 <= a < slots@.len() && 0 <= b < slots@.len() && a != b && #[trigger] slots@[a] is Some
                            && #[trigger] slots@[b] is Some implies slots@[a].unwrap().addr != slots@[b].unwrap().addr by {
                        if a == i {
                            assert(!spec_slot_at(old_slots[b], addr));
                        } else if b == i {
                            assert(!spec_slot_at(old_slots[a], addr));
                        } else {
                            assert(old_slots[a] is Some && old_slots[b] is Some);
                        }
                    }
                }
                self.slots = slots;
                Ok(())
            },
        }
    }

    /// Removes the breakpoint programmed at `addr`. Returns whether there was one.
    pub fn remove_breakpoint_at(&mut self, addr: u32) -> (r: bool)
        ensures
            r == spec_slots_have_addr(old(self).spec_slots(), addr),
            final(self).spec_slots() == spec_slots_without(old(self).spec_slots(), addr),
            !spec_slots_have_addr(final(self).spec_slots(), addr),
    {
        proof { use_type_invariant(&*self); }
        match self.find_slot(addr) {
            None => {
                assert(self.slots@ =~= spec_slots_without(self.slots@, addr));
                false
            },
            Some(i) => {
                let ghost old_slots = self.slots@;
                let mut slots: Vec<Option<HwBreakpoint>> = Vec::new();
                std::mem::swap(&mut slots, &mut self.slots);
                slots.set(i, None);
                proof {
                    assert forall|j: int| 0 <= j < old_slots.len() implies #[trigger] slots@[j] == if spec_slot_at(
                    old_slots[j], addr) {
                        None
                    } else {
                        old_slots[j]
                    } by {
                        if j != i && old_slots[j] is Some {
                            assert(old_slots[i as int] is Some);
                            assert(old_slots[j].unwrap().addr != old_slots[i as int].unwrap().addr);
                        }
                    }
                    assert forall|a: int, b: int|
                        0 <= a < slots@.len() && 0 <= b < slots@.len() && a != b && #[trigger] slots@[a] is Some
                            && #[trigger] slots@[b] is Some implies slots@[a].unwrap().addr != slots@[b].unwrap().addr by {
                        assert(old_slots[a] is Some && old_slots[b] is Some);
                    }
                    assert(!spec_slots_have_addr(slots@, addr)) by {
                        if spec_slots_have_addr(slots@, addr) {
                            let k = choose|k: int| 0 <= k < slots@.len() && #[trigger] spec_slot_at(slots@[k], addr);
                            assert(old_slots[k] is Some);
                            assert(old_slots[i as int] is Some);
                        }
                    }
                }
                assert(slots@ =~= spec_slots_without(old_slots, addr));
                self.slots = slots;
                true
            },
        }
    }

    /// Clears every slot.
    pub fn reset(&mut self)
        ensures
            final(self).spec_slots() == Seq::<Option<HwBreakpoint>>::new(
                old(self).spec_slots().len(),
                |i: int| None,
            ),
    {
        let n = self.slots.len();
        let mut fresh = HwBreakpointManager::new(n);
        std::mem::swap(self, &mut fresh);
    }
}

/// After a breakpoint is programmed into the first free slot, a breakpoint is present at its
/// address (so adding it again is refused with `AlreadyExists`), and removing the breakpoint at
/// that address gives back the slots as they were before.
pub proof fn lemma_add_then_remove(before: Seq<Option<HwBreakpoint>>, i: int, bp: HwBreakpoint)
    requires
        spec_first_free(before, i),
        !spec_slots_have_addr(before, bp.addr),
    ensures
        spec_slots_have_addr(before.update(i, Some(bp)), bp.addr),
        spec_slots_without(before.update(i, Some(bp)), bp.addr) == before,
{
    let after = before.update(i, Some(bp));
    assert(spec_slot_at(after[i], bp.addr));
    assert forall|j: int| 0 <= j < before.len() implies #[trigger] spec_slots_without(after, bp.addr)[j] == before[j] by {
        if j != i {
            assert(!spec_slot_at(before[j], bp.addr));
        }
    }
    assert(spec_slots_without(after, bp.addr) =~= before);
}

} // verus!
