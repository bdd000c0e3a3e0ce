//! Views of VEX SDK data and the decisions made around SDK calls.

pub mod competition;
pub mod serial;

use vstd::prelude::*;

verus! {

/// Where a trampoline is copied when a function is redirected, and where the destination pointer
/// goes.
#[derive(Debug, Clone, Copy, PartialEq, Eq, Structural)]
pub struct TrampolineLayout {
    /// Whether the target function is Thumb code (so the Thumb trampoline is used).
    pub thumb: bool,
    /// The address the trampoline's code is copied from.
    pub source_addr: u32,
    /// The address of the target function's first instruction, where the code is copied to.
    pub write_addr: u32,
    /// The length of the trampoline's code in halfwords.
    pub code_len: u32,
    /// The address right after the copied code, where the destination function pointer is stored.
    pub destination_slot: u32,
}

/// An address with its Thumb bit cleared.
pub open spec fn spec_without_thumb_bit(addr: u32) -> u32 {
    (addr - addr % 2) as u32
}

/// The layout for redirecting the function at `target` (a function pointer, Thumb bit included)
/// with the ARM trampoline spanning `arm` or the Thumb trampoline spanning `thumb` (start and end
/// addresses, start with its Thumb bit as a function pointer has it).
pub open spec fn spec_trampoline_layout(target: u32, arm: (u32, u32), thumb: (u32, u32)) -> TrampolineLayout {
    let is_thumb = target % 2 == 1;
    let (start, end) = if is_thumb {
        thumb
    } else {
        arm
    };
    let source_addr = spec_without_thumb_bit(start);
    let write_addr = spec_without_thumb_bit(target);
    let code_len = ((end - source_addr) / 2) as u32;
    TrampolineLayout {
        thumb: is_thumb,
        source_addr,
        write_addr,
        code_len,
        destination_slot: (write_addr + code_len * 2) as u32,
    }
}

/// Computes where to copy a trampoline over the function at `target` so that the function
/// branches to another one instead: the target's Thumb bit selects the trampoline of the same
/// instruction set, the code is copied halfword by halfword to the target's first instruction,
/// and the destination pointer (Thumb bit kept) is stored right after it.
pub fn trampoline_layout(target: u32, arm: (u32, u32), thumb: (u32, u32)) -> (r: TrampolineLayout)
    requires
        ({
            let (start, end) = if target % 2 == 1 {
                thumb
            } else {
                arm
            };
            &&& end >= spec_without_thumb_bit(start)
            &&& spec_without_thumb_bit(target) + (end - spec_without_thumb_bit(start)) / 2 * 2 <= u32::MAX
        }),
    ensures
        r == spec_trampoline_layout(target, arm, thumb),
{
    let is_thumb = target % 2 == 1;
    let (start, end) = if is_thumb {
        thumb
    } else {
        arm
    };
    let source_addr = start - start % 2;
    let write_addr = target - target % 2;
    let code_len = (end - source_addr) / 2;
    TrampolineLayout {
        thumb: is_thumb,
        source_addr,
        write_addr,
        code_len,
        destination_slot: write_addr + code_len * 2,
    }
}

} // verus!
