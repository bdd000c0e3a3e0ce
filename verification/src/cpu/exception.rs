use vstd::prelude::*;

verus! {

/// The value of the Vector Base Address Register (VBAR): bits 5 to 31 hold the address of the
/// exception vector table, which must therefore be 32-byte aligned.
#[derive(Debug, Clone, Copy, PartialEq, Eq, Structural)]
pub struct VectorBaseAddressRegister {
    raw_value: u32,
}

impl VectorBaseAddressRegister {
    /// The register's bits.
    pub closed spec fn spec_raw(self) -> u32 {
        self.raw_value
    }

    /// The vector base address field (bits 5 to 31).
    pub open spec fn spec_vector_base_address(self) -> u32 {
        self.spec_raw() >> 5u32
    }

    /// Creates a register value from the address of a vector table.
    ///
    /// The address must be 32-byte aligned.
    pub fn new(addr: u32) -> (r: Self)
        requires
            addr & 0b11111 == 0,
        ensures
            r.spec_raw() == addr,
    {
        VectorBaseAddressRegister { raw_value: addr }
    }

    /// A register value with the given bits.
    pub fn new_with_raw_value(raw_value: u32) -> (r: Self)
        ensures
            r.spec_raw() == raw_value,
    {
        VectorBaseAddressRegister { raw_value }
    }

    /// The register's bits.
    pub fn raw_value(self) -> (r: u32)
        ensures
            r == self.spec_raw(),
    {
        self.raw_value
    }

    /// Returns the address of the vector table.
    pub fn ptr(self) -> (r: u32)
        ensures
            r == self.spec_vector_base_address() << 5u32,
            r == self.spec_raw() & !0b11111u32,
    {
        let raw = self.raw_value;
        assert((raw >> 5u32) << 5u32 == raw & !0b11111u32) by (bit_vector);
        (raw >> 5u32) << 5u32
    }
}

/// The table address a register value is made from is the one it points to.
pub proof fn lemma_vbar_roundtrip(addr: u32)
    requires
        addr & 0b11111 == 0,
    ensures
        (addr >> 5u32) << 5u32 == addr,
{
    assert(addr & 0b11111 == 0 ==> (addr >> 5u32) << 5u32 == addr) by (bit_vector);
}

} // verus!
