//! Communication between the debugger and the GDB client.

pub mod host;
pub mod mux;

use vstd::prelude::*;

verus! {

/// An error of the transport stream, with a static message.
#[derive(Debug, Clone, Copy)]
pub struct TransportError(pub &'static str);

impl TransportError {
    /// The error's message.
    pub fn message(&self) -> (r: &'static str)
        ensures
            r@ == self.0@,
    {
        self.0
    }
}

impl From<&'static str> for TransportError {
    fn from(value: &'static str) -> (r: Self) {
        TransportError(value)
    }
}

impl vstd::std_specs::convert::FromSpecImpl<&'static str> for TransportError {
    open spec fn obeys_from_spec() -> bool {
        true
    }

    open spec fn from_spec(value: &'static str) -> Self {
        TransportError(value)
    }
}

/// Debug communication over the brain's USB serial port (stdio).
///
/// When using this transport, input and output are multiplexed: user output and GDB traffic
/// travel as framed packets on the user serial channel (see [`mux`]).
#[derive(Debug)]
#[non_exhaustive]
pub struct StdioTransport {}

impl StdioTransport {
    /// Create a new stdio-based transport.
    pub fn new() -> (r: Self) {
        StdioTransport {}
    }
}

impl Default for StdioTransport {
    fn default() -> (r: Self) {
        StdioTransport::new()
    }
}

} // verus!
