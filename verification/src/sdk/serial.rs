//! System serial I/O: how the raw return values of the jumptable's serial functions are read.

use vstd::prelude::*;

verus! {

/// The size of the serial output ringbuffer.
pub const OUT_BUF_SIZE: usize = 2048;

/// The number of the channel user code's standard I/O uses.
pub const USER_CHANNEL: u32 = 1;

/// A serial channel number.
#[derive(Debug, Clone, Copy, PartialEq, Eq, Structural)]
pub struct Channel(pub u32);

impl Channel {
    /// The channel user code's standard I/O uses.
    pub fn user() -> (r: Channel)
        ensures
            r == Channel(USER_CHANNEL),
    {
        Channel(USER_CHANNEL)
    }

    /// Whether this is the user channel.
    pub fn is_user(self) -> (r: bool)
        ensures
            r == (self.0 == 1),
    {
        self.0 == USER_CHANNEL
    }
}

impl From<u32> for Channel {
    fn from(value: u32) -> (r: Self) {
        Channel(value)
    }
}

impl vstd::std_specs::convert::FromSpecImpl<u32> for Channel {
    open spec fn obeys_from_spec() -> bool {
        true
    }

    open spec fn from_spec(value: u32) -> Self {
        Channel(value)
    }
}

/// What a byte read or peek returns: `-1` means there was no byte, anything else is the byte
/// (its low eight bits).
pub open spec fn spec_byte_from_raw(raw: i32) -> Option<u8> {
    if raw == -1 {
        None
    } else {
        Some(raw as u8)
    }
}

/// Reads the return value of the system's serial read or peek function.
pub fn byte_from_raw(raw: i32) -> (r: Option<u8>)
    ensures
        r == spec_byte_from_raw(raw),
{
    if raw == -1 {
        None
    } else {
        Some(raw as u8)
    }
}

/// Reads the return value of the system's "free space in the output buffer" function: `-1`
/// means the channel is invalid.
pub fn capacity_from_raw(raw: i32) -> (r: Option<usize>)
    ensures
        raw == -1 ==> r is None,
        raw != -1 ==> r == Some(raw as usize),
{
    if raw == -1 {
        None
    } else {
        Some(raw as usize)
    }
}

/// Reads the return value of the system's buffer write function: `-1` means the channel is
/// invalid, anything else is the number of bytes written.
pub fn written_from_raw(raw: i32) -> (r: Result<usize, ()>)
    ensures
        raw == -1 ==> r is Err,
        raw != -1 ==> r == Ok::<usize, ()>(raw as usize),
{
    if raw == -1 {
        Err(())
    } else {
        Ok(raw as usize)
    }
}

/// Reads the return value of the system's character write function: whether the byte was written.
pub fn byte_written_from_raw(raw: i32) -> (r: bool)
    ensures
        r == (raw != 0),
{
    raw != 0
}

/// Turns a byte read back into the raw convention of the SDK: the byte, or `-1` for none.
pub fn raw_from_byte(byte: Option<u8>) -> (r: i32)
    ensures
        match byte {
            Some(b) => r == b,
            None => r == -1,
        },
{
    match byte {
        Some(b) => b as i32,
        None => -1,
    }
}

/// How many bytes are left to write after a write call reported `written` bytes of `remaining`;
/// a report larger than what was offered counts as all of it.
pub fn remaining_after_write(remaining: usize, written: usize) -> (r: usize)
    ensures
        r == if written >= remaining {
            0
        } else {
            remaining - written
        },
{
    if written >= remaining {
        0
    } else {
        remaining - written
    }
}

/// Reading back a byte in the raw convention gives the byte.
pub proof fn lemma_byte_raw_roundtrip(byte: Option<u8>, raw: i32)
    requires
        match byte {
            Some(b) => raw == b,
            None => raw == -1,
        },
    ensures
        spec_byte_from_raw(raw) == byte,
{
    if let Some(b) = byte {
        assert(raw as u8 == b) by (bit_vector)
            requires
                raw == b,
        ;
    }
}

} // verus!
