use vstd::prelude::*;

verus! {

/// ARM-specific breakpoint kinds.
///
/// Extracted from the GDB documentation at
/// [E.5.1.1 ARM Breakpoint Kinds](https://sourceware.org/gdb/current/onlinedocs/gdb/ARM-Breakpoint-Kinds.html#ARM-Breakpoint-Kinds)
#[derive(Debug, Clone, Copy, PartialEq, Eq, Structural)]
pub enum ArmBreakpointKind {
    /// 16-bit Thumb mode breakpoint.
    Thumb16,
    /// 32-bit Thumb mode (Thumb-2) breakpoint.
    Thumb32,
    /// 32-bit ARM mode breakpoint.
    Arm32,
}

/// The breakpoint kind that GDB's numeric `kind` field names.
pub open spec fn spec_kind_from_usize(kind: usize) -> Option<ArmBreakpointKind> {
    if kind == 2 {
        Some(ArmBreakpointKind::Thumb16)
    } else if kind == 3 {
        Some(ArmBreakpointKind::Thumb32)
    } else if kind == 4 {
        Some(ArmBreakpointKind::Arm32)
    } else {
        None
    }
}

impl ArmBreakpointKind {
    /// Parses GDB's numeric breakpoint kind: 2 is a 16-bit Thumb breakpoint, 3 a 32-bit Thumb
    /// breakpoint and 4 an ARM breakpoint; every other number is rejected.
    pub fn from_usize(kind: usize) -> (r: Option<Self>)
        ensures
            r == spec_kind_from_usize(kind),
    {
        match kind {
            2 => Some(ArmBreakpointKind::Thumb16),
            3 => Some(ArmBreakpointKind::Thumb32),
            4 => Some(ArmBreakpointKind::Arm32),
            _ => None,
        }
    }
}

/// 32-bit ARM register identifier.
#[derive(Debug, Clone, Copy, PartialEq, Eq, Structural)]
pub enum ArmRegisterID {
    /// General purpose registers (R0-R12)
    Gpr(u8),
    /// Stack Pointer (R13)
    Sp,
    /// Link Register (R14)
    Lr,
    /// Program Counter (R15)
    Pc,
    /// Current Program Status Register (cpsr)
    Cpsr,
    /// Floating-point/SIMD registers (F0-F31)
    Fpr(u8),
    /// Floating point status and control register
    Fpscr,
}

/// The register that GDB's register number `id` names in the target description.
pub open spec fn spec_register_from_raw_id(id: usize) -> Option<ArmRegisterID> {
    if id <= 12 {
        Some(ArmRegisterID::Gpr(id as u8))
    } else if id == 13 {
        Some(ArmRegisterID::Sp)
    } else if id == 14 {
        Some(ArmRegisterID::Lr)
    } else if id == 15 {
        Some(ArmRegisterID::Pc)
    } else if id == 25 {
        Some(ArmRegisterID::Cpsr)
    } else if 26 <= id <= 57 {
        Some(ArmRegisterID::Fpr((id - 26) as u8))
    } else if id == 58 {
        Some(ArmRegisterID::Fpscr)
    } else {
        None
    }
}

impl ArmRegisterID {
    /// The size of the register in bytes: 8 for a floating-point register, 4 for every other.
    pub open spec fn spec_size(self) -> nat {
        match self {
            ArmRegisterID::Fpr(_) => 8,
            _ => 4,
        }
    }

    /// Returns the size of the register in bytes (never zero).
    pub fn size(self) -> (r: usize)
        ensures
            r == self.spec_size(),
            r > 0,
    {
        match self {
            ArmRegisterID::Fpr(_) => 8,
            _ => 4,
        }
    }

    /// Maps GDB's register number to a register and its size: 0 to 12 are R0-R12, 13 SP, 14 LR,
    /// 15 PC, 25 CPSR, 26 to 57 the floating-point registers F0-F31 and 58 FPSCR. Every other
    /// number is rejected.
    pub fn from_raw_id(id: usize) -> (r: Option<(Self, Option<usize>)>)
        ensures
            match spec_register_from_raw_id(id) {
                Some(reg) => r == Some((reg, Some(reg.spec_size() as usize))),
                None => r is None,
            },
    {
        let reg = if id <= 12 {
            ArmRegisterID::Gpr(id as u8)
        } else if id == 13 {
            ArmRegisterID::Sp
        } else if id == 14 {
            ArmRegisterID::Lr
        } else if id == 15 {
            ArmRegisterID::Pc
        } else if id == 25 {
            ArmRegisterID::Cpsr
        } else if 26 <= id && id <= 57 {
            ArmRegisterID::Fpr((id - 26) as u8)
        } else if id == 58 {
            ArmRegisterID::Fpscr
        } else {
            return None;
        };
        Some((reg, Some(reg.size())))
    }
}

/// GDB's breakpoint kinds: 2 is a 16-bit Thumb breakpoint, 3 a 32-bit Thumb breakpoint, 4 an ARM
/// breakpoint, and no other number is a kind.
pub proof fn lemma_breakpoint_kind_numbers(kind: usize)
    ensures
        spec_kind_from_usize(2) == Some(ArmBreakpointKind::Thumb16),
        spec_kind_from_usize(3) == Some(ArmBreakpointKind::Thumb32),
        spec_kind_from_usize(4) == Some(ArmBreakpointKind::Arm32),
        kind != 2 && kind != 3 && kind != 4 ==> spec_kind_from_usize(kind) is None,
{
}

/// GDB's register numbers: 0 to 12 are R0 to R12, 13 the stack pointer, 14 the link register,
/// 15 the program counter, 25 CPSR, 26 to 57 the floating-point registers F0 to F31 (8 bytes
/// each) and 58 FPSCR; every other register is 4 bytes wide and every other number names none.
pub proof fn lemma_register_numbers(id: usize)
    ensures
        id <= 12 ==> spec_register_from_raw_id(id) == Some(ArmRegisterID::Gpr(id as u8)),
        spec_register_from_raw_id(13) == Some(ArmRegisterID::Sp),
        spec_register_from_raw_id(14) == Some(ArmRegisterID::Lr),
        spec_register_from_raw_id(15) == Some(ArmRegisterID::Pc),
        spec_register_from_raw_id(25) == Some(ArmRegisterID::Cpsr),
        26 <= id <= 57 ==> spec_register_from_raw_id(id) == Some(ArmRegisterID::Fpr((id - 26) as u8)),
        spec_register_from_raw_id(58) == Some(ArmRegisterID::Fpscr),
        (16 <= id <= 24 || id > 58) ==> spec_register_from_raw_id(id) is None,
        ArmRegisterID::Fpr((id % 32) as u8).spec_size() == 8,
        ArmRegisterID::Gpr((id % 13) as u8).spec_size() == 4,
        ArmRegisterID::Sp.spec_size() == 4 && ArmRegisterID::Lr.spec_size() == 4 && ArmRegisterID::Pc.spec_size() == 4,
        ArmRegisterID::Cpsr.spec_size() == 4 && ArmRegisterID::Fpscr.spec_size() == 4,
{
}

/// Distinct register numbers never name the same register.
pub proof fn lemma_register_ids_distinct(id1: usize, id2: usize)
    requires
        spec_register_from_raw_id(id1) is Some,
        spec_register_from_raw_id(id1) == spec_register_from_raw_id(id2),
    ensures
        id1 == id2,
{
}

/// Distinct GDB kind numbers never name the same breakpoint kind.
pub proof fn lemma_breakpoint_kinds_distinct(k1: usize, k2: usize)
    requires
        spec_kind_from_usize(k1) is Some,
        spec_kind_from_usize(k1) == spec_kind_from_usize(k2),
    ensures
        k1 == k2,
{
}

} // verus!
