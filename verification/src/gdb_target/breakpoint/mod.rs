//! Software and hardware breakpoint management.

pub mod hardware;
pub mod software;

use vstd::prelude::*;

verus! {

/// Why a breakpoint could not be placed.
#[derive(Debug, Clone, Copy, PartialEq, Eq, Structural)]
pub enum BreakpointError {
    /// A software breakpoint can't be placed there because that region isn't writable.
    CannotWrite,
    /// There is already a breakpoint with this address.
    AlreadyExists,
    /// There are no free breakpoint slots.
    NoSpace,
    /// The specified breakpoint address is not aligned properly for the given instruction type.
    NotAlignedCorrectly,
}

} // verus!
