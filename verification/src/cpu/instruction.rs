use vstd::prelude::*;

verus! {

/// An instruction-set independent CPU instruction.
///
/// Supports both the ARM (32-bit) instruction set and the Thumb (variable length) instruction set.
#[derive(Debug, Clone, Copy)]
pub enum Instruction {
    /// An instruction from the ARM32 instruction set.
    Arm(u32),
    /// An short instruction from the Thumb instruction set.
    Thumb16(u16),
    /// A long instruction from the Thumb instruction set.
    ///
    /// The highest 5 bits of the first halfword in a 32-bit thumb instruction are always
    /// in the range `0b11101..=0b11111`.
    Thumb32([u16; 2]),
}

impl PartialEq for Instruction {
    fn eq(&self, other: &Self) -> (r: bool) {
        match (self, other) {
            (Instruction::Arm(a), Instruction::Arm(b)) => *a == *b,
            (Instruction::Thumb16(a), Instruction::Thumb16(b)) => *a == *b,
            (Instruction::Thumb32(a), Instruction::Thumb32(b)) => {
                let r = a[0] == b[0] && a[1] == b[1];
                proof {
                    if r {
                        assert(*a =~= *b);
                    }
                }
                r
            },
            _ => false,
        }
    }
}

impl vstd::std_specs::cmp::PartialEqSpecImpl for Instruction {
    open spec fn obeys_eq_spec() -> bool {
        true
    }

    open spec fn eq_spec(&self, other: &Instruction) -> bool {
        *self == *other
    }
}

impl Eq for Instruction {
}

/// Whether a halfword is the first half of a 32-bit Thumb instruction.
pub open spec fn spec_is_thumb32(halfword: u16) -> bool {
    0b11101 <= (halfword >> 11u16) <= 0b11111
}

/// Given the first 16 bits of a Thumb instruction, returns whether the instruction is 32-bit.
pub fn is_thumb32(halfword: u16) -> (r: bool)
    ensures
        r == spec_is_thumb32(halfword),
        r == (halfword >= 0xE800),
{
    let top = halfword >> 11u16;
    assert((halfword >> 11u16) >= 0b11101 <==> halfword >= 0xE800) by (bit_vector);
    assert((halfword >> 11u16) <= 0b11111) by (bit_vector);
    0b11101 <= top && top <= 0b11111
}

/// The top five bits of a halfword select the 32-bit Thumb encodings exactly when the halfword
/// is at least `0xE800`.
pub proof fn lemma_thumb32_prefix(halfword: u16)
    ensures
        spec_is_thumb32(halfword) <==> halfword >= 0xE800,
{
    assert((halfword >> 11u16) >= 0b11101 <==> halfword >= 0xE800) by (bit_vector);
    assert((halfword >> 11u16) <= 0b11111) by (bit_vector);
}

/// The halfword stored in two consecutive little-endian bytes.
pub open spec fn halfword_from_le(b0: u8, b1: u8) -> u16 {
    (b0 + b1 * 256) as u16
}

/// The word stored in four consecutive little-endian bytes.
pub open spec fn word_from_le(b0: u8, b1: u8, b2: u8, b3: u8) -> u32 {
    (b0 + b1 * 0x100 + b2 * 0x1_0000 + b3 * 0x100_0000) as u32
}

/// The two little-endian bytes of a halfword.
pub open spec fn halfword_le_bytes(h: u16) -> Seq<u8> {
    seq![(h % 256) as u8, (h / 256) as u8]
}

/// The four little-endian bytes of a word.
pub open spec fn word_le_bytes(w: u32) -> Seq<u8> {
    seq![
        (w % 0x100) as u8,
        ((w / 0x100) % 0x100) as u8,
        ((w / 0x1_0000) % 0x100) as u8,
        (w / 0x100_0000) as u8,
    ]
}

/// The instruction that an instruction fetch of the given instruction set finds at the start of
/// `bytes` (little-endian memory), or `None` when `bytes` ends before the instruction does.
pub open spec fn spec_decode(bytes: Seq<u8>, thumb: bool) -> Option<Instruction> {
    if thumb {
        if bytes.len() < 2 {
            None
        } else {
            let hw1 = halfword_from_le(bytes[0], bytes[1]);
            if spec_is_thumb32(hw1) {
                if bytes.len() < 4 {
                    None
                } else {
                    Some(Instruction::Thumb32([hw1, halfword_from_le(bytes[2], bytes[3])]))
                }
            } else {
                Some(Instruction::Thumb16(hw1))
            }
        }
    } else {
        if bytes.len() < 4 {
            None
        } else {
            Some(Instruction::Arm(word_from_le(bytes[0], bytes[1], bytes[2], bytes[3])))
        }
    }
}

/// Reinterprets the two halfwords of a 32-bit Thumb instruction as one `u32` through
/// `bytemuck::must_cast`, which keeps the four bytes where they lie in memory. The value therefore
/// depends on the machine's byte order: on a little-endian machine (such as the V5's ARMv7-A
/// core) the first halfword is the low half, on a big-endian one it is the high half. The contract
/// states that the result is one of these two; it does not say which.
#[verifier::external_body]
fn halfwords_as_u32(halfwords: [u16; 2]) -> (r: u32)
    ensures
        r == halfwords[0] + halfwords[1] * 0x1_0000 || r == halfwords[1] + halfwords[0] * 0x1_0000,
{
    bytemuck::must_cast(halfwords)
}

impl Instruction {
    /// Whether this is a thumb instruction.
    pub open spec fn spec_is_thumb(self) -> bool {
        self is Thumb16 || self is Thumb32
    }

    /// The size of the instruction in bytes.
    pub open spec fn spec_size(self) -> nat {
        match self {
            Instruction::Arm(_) => 4,
            Instruction::Thumb16(_) => 2,
            Instruction::Thumb32(_) => 4,
        }
    }

    /// Whether the variant agrees with the encoding: a 16-bit Thumb instruction never starts with
    /// a 32-bit prefix and a 32-bit one always does.
    pub open spec fn well_formed(self) -> bool {
        match self {
            Instruction::Arm(_) => true,
            Instruction::Thumb16(h) => !spec_is_thumb32(h),
            Instruction::Thumb32(hw) => spec_is_thumb32(hw[0]),
        }
    }

    /// The bytes of the instruction as it lies in little-endian memory.
    pub open spec fn spec_le_bytes(self) -> Seq<u8> {
        match self {
            Instruction::Arm(w) => word_le_bytes(w),
            Instruction::Thumb16(h) => halfword_le_bytes(h),
            Instruction::Thumb32(hw) => halfword_le_bytes(hw[0]) + halfword_le_bytes(hw[1]),
        }
    }

    /// Returns whether this is a thumb instruction.
    pub fn is_thumb(self) -> (r: bool)
        ensures
            r == self.spec_is_thumb(),
    {
        match self {
            Instruction::Thumb16(_) | Instruction::Thumb32(_) => true,
            Instruction::Arm(_) => false,
        }
    }

    /// Returns the size of the instruction in bytes.
    pub fn size(self) -> (r: usize)
        ensures
            r == self.spec_size(),
    {
        match self {
            Instruction::Arm(_) => 4,
            Instruction::Thumb16(_) => 2,
            Instruction::Thumb32(_) => 4,
        }
    }

    /// Returns the integer representation of the instruction casted to a usize.
    pub fn as_usize(self) -> (r: usize)
        ensures
            match self {
                Instruction::Arm(w) => r == w,
                Instruction::Thumb16(h) => r == h,
                Instruction::Thumb32(hw) => r == hw[0] + hw[1] * 0x1_0000 || r == hw[1] + hw[0]
                    * 0x1_0000,
            },
    {
        match self {
            Instruction::Arm(w) => w as usize,
            Instruction::Thumb16(h) => h as usize,
            Instruction::Thumb32(hw) => halfwords_as_u32(hw) as usize,
        }
    }

    /// Decodes the instruction at the start of `bytes`, read from little-endian memory as either a
    /// Thumb or an ARM instruction. For Thumb, the second halfword is only read when the first one
    /// announces a 32-bit instruction. Returns `None` when `bytes` is too short.
    pub fn decode(bytes: &[u8], thumb: bool) -> (r: Option<Instruction>)
        ensures
            r == spec_decode(bytes@, thumb),
            r matches Some(i) ==> i.well_formed() && i.spec_is_thumb() == thumb,
    {
        if thumb {
            if bytes.len() < 2 {
                return None;
            }
            let hw1: u16 = bytes[0] as u16 + (bytes[1] as u16) * 256;
            if is_thumb32(hw1) {
                if bytes.len() < 4 {
                    return None;
                }
                let hw2: u16 = bytes[2] as u16 + (bytes[3] as u16) * 256;
                Some(Instruction::Thumb32([hw1, hw2]))
            } else {
                Some(Instruction::Thumb16(hw1))
            }
        } else {
            if bytes.len() < 4 {
                return None;
            }
            let w: u32 = bytes[0] as u32 + (bytes[1] as u32) * 0x100 + (bytes[2] as u32) * 0x1_0000
                + (bytes[3] as u32) * 0x100_0000;
            Some(Instruction::Arm(w))
        }
    }

    /// The bytes that writing this instruction stores in little-endian memory.
    pub fn to_le_bytes(self) -> (r: Vec<u8>)
        ensures
            r@ == self.spec_le_bytes(),
            r@.len() == self.spec_size(),
    {
        let mut out: Vec<u8> = Vec::new();
        match self {
            Instruction::Arm(w) => {
                out.push((w % 0x100) as u8);
                out.push(((w / 0x100) % 0x100) as u8);
                out.push(((w / 0x1_0000) % 0x100) as u8);
                out.push((w / 0x100_0000) as u8);
            },
            Instruction::Thumb16(h) => {
                out.push((h % 256) as u8);
                out.push((h / 256) as u8);
            },
            Instruction::Thumb32(hw) => {
                out.push((hw[0] % 256) as u8);
                out.push((hw[0] / 256) as u8);
                out.push((hw[1] % 256) as u8);
                out.push((hw[1] / 256) as u8);
            },
        }
        assert(out@ =~= self.spec_le_bytes());
        out
    }
}

/// Decoding the bytes that writing a well-formed instruction stores gives back that instruction.
pub proof fn lemma_decode_le_bytes(i: Instruction)
    requires
        i.well_formed(),
    ensures
        spec_decode(i.spec_le_bytes(), i.spec_is_thumb()) == Some(i),
{
    match i {
        Instruction::Arm(w) => {
            let b = word_le_bytes(w);
            assert(word_from_le(b[0], b[1], b[2], b[3]) == w);
        },
        Instruction::Thumb16(h) => {
            let b = halfword_le_bytes(h);
            assert(halfword_from_le(b[0], b[1]) == h);
        },
        Instruction::Thumb32(hw) => {
            let b = i.spec_le_bytes();
            assert(halfword_from_le(b[0], b[1]) == hw[0]);
            assert(halfword_from_le(b[2], b[3]) == hw[1]);
            assert([hw[0], hw[1]] =~= hw);
        },
    }
}

/// Writing a decoded instruction stores exactly the bytes it was decoded from.
pub proof fn lemma_le_bytes_of_decoded(bytes: Seq<u8>, thumb: bool)
    requires
        spec_decode(bytes, thumb) is Some,
    ensures
        ({
            let i = spec_decode(bytes, thumb).unwrap();
            i.spec_le_bytes() == bytes.subrange(0, i.spec_size() as int)
        }),
{
    let i = spec_decode(bytes, thumb).unwrap();
    let b0 = bytes[0];
    let b1 = bytes[1];
    assert(halfword_le_bytes(halfword_from_le(b0, b1)) =~= seq![b0, b1]);
    if i.spec_size() == 4 {
        let b2 = bytes[2];
        let b3 = bytes[3];
        assert(halfword_le_bytes(halfword_from_le(b2, b3)) =~= seq![b2, b3]);
        assert(word_le_bytes(word_from_le(b0, b1, b2, b3)) =~= seq![b0, b1, b2, b3]);
    }
    assert(i.spec_le_bytes() =~= bytes.subrange(0, i.spec_size() as int));
}

} // verus!
