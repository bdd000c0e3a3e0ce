//! CPU-level data: instructions, status registers and the vector base address register.

pub mod exception;
pub mod instruction;

use vstd::prelude::*;

use crate::sdk::competition::{bit, spec_bit, spec_with_bit, with_bit};

verus! {

/// The field of `raw` that starts at bit `lo` and is selected by `mask` (after shifting).
pub open spec fn spec_field(raw: u32, lo: u32, mask: u32) -> u32 {
    (raw >> lo) & mask
}

/// `raw` with the field at `lo` under `mask` replaced by `value`.
pub open spec fn spec_with_field(raw: u32, lo: u32, mask: u32, value: u32) -> u32 {
    (raw & !(mask << lo)) | ((value & mask) << lo)
}

fn field(raw: u32, lo: u32, mask: u32) -> (r: u32)
    requires
        lo < 32,
    ensures
        r == spec_field(raw, lo, mask),
{
    (raw >> lo) & mask
}

fn with_field(raw: u32, lo: u32, mask: u32, value: u32) -> (r: u32)
    requires
        lo < 32,
    ensures
        r == spec_with_field(raw, lo, mask, value),
{
    (raw & !(mask << lo)) | ((value & mask) << lo)
}

/// The status of an ARMv7-A CPU (the CPSR/SPSR layout).
#[derive(Debug, Clone, Copy, PartialEq, Eq, Structural)]
pub struct ProgramStatus {
    raw_value: u32,
}

impl ProgramStatus {
    /// The register's bits.
    pub closed spec fn spec_raw(self) -> u32 {
        self.raw_value
    }

    /// The Thumb execution state bit (bit 5).
    pub open spec fn spec_thumb(self) -> bool {
        (self.spec_raw() >> 5u32) & 1 == 1
    }

    /// The processor mode field (bits 0 to 4).
    pub open spec fn spec_mode(self) -> u32 {
        self.spec_raw() & 0b11111
    }

    /// A status value with the given bits.
    pub fn new_with_raw_value(raw_value: u32) -> (r: Self)
        ensures
            r.spec_raw() == raw_value,
    {
        ProgramStatus { raw_value }
    }

    /// The register's bits.
    pub fn raw_value(self) -> (r: u32)
        ensures
            r == self.spec_raw(),
    {
        self.raw_value
    }

    /// Mutable access to the register's bits.
    pub fn raw_value_mut(&mut self) -> (r: &mut u32)
        ensures
            *r == old(self).spec_raw(),
            final(self).spec_raw() == *final(r),
    {
        &mut self.raw_value
    }

    /// Whether the CPU executes Thumb instructions.
    pub fn thumb(self) -> (r: bool)
        ensures
            r == self.spec_thumb(),
    {
        let raw = self.raw_value;
        (raw >> 5u32) & 1 == 1
    }

    /// The processor mode field.
    pub fn mode(self) -> (r: u32)
        ensures
            r == self.spec_mode(),
            r < 32,
    {
        let raw = self.raw_value;
        assert(raw & 0b11111 < 32) by (bit_vector);
        raw & 0b11111
    }

    /// The negative condition flag (N): bit 31.
    pub fn negative(self) -> (r: bool)
        ensures
            r == spec_bit(self.spec_raw(), 31),
    {
        bit(self.raw_value, 31)
    }

    /// This status with bit 31 (the negative condition flag, N) set to `value` and every other bit unchanged.
    pub fn with_negative(self, value: bool) -> (r: Self)
        ensures
            r.spec_raw() == spec_with_bit(self.spec_raw(), 31, value),
    {
        ProgramStatus { raw_value: with_bit(self.raw_value, 31, value) }
    }

    /// The zero condition flag (Z): bit 30.
    pub fn zero(self) -> (r: bool)
        ensures
            r == spec_bit(self.spec_raw(), 30),
    {
        bit(self.raw_value, 30)
    }

    /// This status with bit 30 (the zero condition flag, Z) set to `value` and every other bit unchanged.
    pub fn with_zero(self, value: bool) -> (r: Self)
        ensures
            r.spec_raw() == spec_with_bit(self.spec_raw(), 30, value),
    {
        ProgramStatus { raw_value: with_bit(self.raw_value, 30, value) }
    }

    /// The carry condition flag (C): bit 29.
    pub fn carry(self) -> (r: bool)
        ensures
            r == spec_bit(self.spec_raw(), 29),
    {
        bit(self.raw_value, 29)
    }

    /// This status with bit 29 (the carry condition flag, C) set to `value` and every other bit unchanged.
    pub fn with_carry(self, value: bool) -> (r: Self)
        ensures
            r.spec_raw() == spec_with_bit(self.spec_raw(), 29, value),
    {
        ProgramStatus { raw_value: with_bit(self.raw_value, 29, value) }
    }

    /// The overflow condition flag (V): bit 28.
    pub fn overflow(self) -> (r: bool)
        ensures
            r == spec_bit(self.spec_raw(), 28),
    {
        bit(self.raw_value, 28)
    }

    /// This status with bit 28 (the overflow condition flag, V) set to `value` and every other bit unchanged.
    pub fn with_overflow(self, value: bool) -> (r: Self)
        ensures
            r.spec_raw() == spec_with_bit(self.spec_raw(), 28, value),
    {
        ProgramStatus { raw_value: with_bit(self.raw_value, 28, value) }
    }

    /// The cumulative saturation flag (Q): bit 27.
    pub fn cumulative_sat(self) -> (r: bool)
        ensures
            r == spec_bit(self.spec_raw(), 27),
    {
        bit(self.raw_value, 27)
    }

    /// This status with bit 27 (the cumulative saturation flag, Q) set to `value` and every other bit unchanged.
    pub fn with_cumulative_sat(self, value: bool) -> (r: Self)
        ensures
            r.spec_raw() == spec_with_bit(self.spec_raw(), 27, value),
    {
        ProgramStatus { raw_value: with_bit(self.raw_value, 27, value) }
    }

    /// The Jazelle execution state bit (J): bit 24.
    pub fn jazelle(self) -> (r: bool)
        ensures
            r == spec_bit(self.spec_raw(), 24),
    {
        bit(self.raw_value, 24)
    }

    /// This status with bit 24 (the jazelle execution state bit, J) set to `value` and every other bit unchanged.
    pub fn with_jazelle(self, value: bool) -> (r: Self)
        ensures
            r.spec_raw() == spec_with_bit(self.spec_raw(), 24, value),
    {
        ProgramStatus { raw_value: with_bit(self.raw_value, 24, value) }
    }

    /// The big-endian data access bit (E): bit 9.
    pub fn big_endian(self) -> (r: bool)
        ensures
            r == spec_bit(self.spec_raw(), 9),
    {
        bit(self.raw_value, 9)
    }

    /// This status with bit 9 (the big-endian data access bit, E) set to `value` and every other bit unchanged.
    pub fn with_big_endian(self, value: bool) -> (r: Self)
        ensures
            r.spec_raw() == spec_with_bit(self.spec_raw(), 9, value),
    {
        ProgramStatus { raw_value: with_bit(self.raw_value, 9, value) }
    }

    /// The asynchronous abort mask bit (A): bit 8.
    pub fn async_abort_disabled(self) -> (r: bool)
        ensures
            r == spec_bit(self.spec_raw(), 8),
    {
        bit(self.raw_value, 8)
    }

    /// This status with bit 8 (the asynchronous abort mask bit, A) set to `value` and every other bit unchanged.
    pub fn with_async_abort_disabled(self, value: bool) -> (r: Self)
        ensures
            r.spec_raw() == spec_with_bit(self.spec_raw(), 8, value),
    {
        ProgramStatus { raw_value: with_bit(self.raw_value, 8, value) }
    }

    /// The IRQ mask bit (I): bit 7.
    pub fn irq_disabled(self) -> (r: bool)
        ensures
            r == spec_bit(self.spec_raw(), 7),
    {
        bit(self.raw_value, 7)
    }

    /// This status with bit 7 (the iRQ mask bit, I) set to `value` and every other bit unchanged.
    pub fn with_irq_disabled(self, value: bool) -> (r: Self)
        ensures
            r.spec_raw() == spec_with_bit(self.spec_raw(), 7, value),
    {
        ProgramStatus { raw_value: with_bit(self.raw_value, 7, value) }
    }

    /// The FIQ mask bit (F): bit 6.
    pub fn fiq_disabled(self) -> (r: bool)
        ensures
            r == spec_bit(self.spec_raw(), 6),
    {
        bit(self.raw_value, 6)
    }

    /// This status with bit 6 (the fIQ mask bit, F) set to `value` and every other bit unchanged.
    pub fn with_fiq_disabled(self, value: bool) -> (r: Self)
        ensures
            r.spec_raw() == spec_with_bit(self.spec_raw(), 6, value),
    {
        ProgramStatus { raw_value: with_bit(self.raw_value, 6, value) }
    }

    /// Bits 1 and 0 of the If-Then execution state (bits 25 and 26).
    pub fn if_then_1_0(self) -> (r: u32)
        ensures
            r == spec_field(self.spec_raw(), 25, 0b11),
    {
        field(self.raw_value, 25, 0b11)
    }

    /// This status with that field set to `value` and every other bit unchanged.
    pub fn with_if_then_1_0(self, value: u32) -> (r: Self)
        requires
            value <= 0b11,
        ensures
            r.spec_raw() == spec_with_field(self.spec_raw(), 25, 0b11, value),
    {
        ProgramStatus { raw_value: with_field(self.raw_value, 25, 0b11, value) }
    }

    /// The greater-than-or-equal flags of the SIMD instructions (bits 16 to 19).
    pub fn gt_eq_flags(self) -> (r: u32)
        ensures
            r == spec_field(self.spec_raw(), 16, 0xF),
    {
        field(self.raw_value, 16, 0xF)
    }

    /// This status with that field set to `value` and every other bit unchanged.
    pub fn with_gt_eq_flags(self, value: u32) -> (r: Self)
        requires
            value <= 0xF,
        ensures
            r.spec_raw() == spec_with_field(self.spec_raw(), 16, 0xF, value),
    {
        ProgramStatus { raw_value: with_field(self.raw_value, 16, 0xF, value) }
    }

    /// Bits 7 to 2 of the If-Then execution state (bits 10 to 15).
    pub fn if_then_7_2(self) -> (r: u32)
        ensures
            r == spec_field(self.spec_raw(), 10, 0x3F),
    {
        field(self.raw_value, 10, 0x3F)
    }

    /// This status with that field set to `value` and every other bit unchanged.
    pub fn with_if_then_7_2(self, value: u32) -> (r: Self)
        requires
            value <= 0x3F,
        ensures
            r.spec_raw() == spec_with_field(self.spec_raw(), 10, 0x3F, value),
    {
        ProgramStatus { raw_value: with_field(self.raw_value, 10, 0x3F, value) }
    }

    /// This status with the processor mode field set to `value` and every other bit unchanged.
    pub fn with_mode(self, value: u32) -> (r: Self)
        requires
            value <= 0b11111,
        ensures
            r.spec_raw() == spec_with_field(self.spec_raw(), 0, 0b11111, value),
    {
        ProgramStatus { raw_value: with_field(self.raw_value, 0, 0b11111, value) }
    }

    /// This status with the Thumb bit set to `thumb` and every other bit unchanged.
    pub fn with_thumb(self, thumb: bool) -> (r: Self)
        ensures
            r.spec_thumb() == thumb,
            r.spec_raw() & !0x20u32 == self.spec_raw() & !0x20u32,
    {
        let raw = self.raw_value;
        let new_raw = if thumb {
            raw | 0x20u32
        } else {
            raw & !0x20u32
        };
        assert((raw | 0x20u32) >> 5u32 & 1 == 1) by (bit_vector);
        assert((raw & !0x20u32) >> 5u32 & 1 == 0) by (bit_vector);
        assert((raw | 0x20u32) & !0x20u32 == raw & !0x20u32) by (bit_vector);
        assert((raw & !0x20u32) & !0x20u32 == raw & !0x20u32) by (bit_vector);
        ProgramStatus { raw_value: new_raw }
    }
}

} // verus!
