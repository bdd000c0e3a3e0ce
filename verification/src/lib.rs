//! Verified core of a GDB-compatible debug server for the VEX V5 brain.
//!
//! The library holds the decisions of the debugger: instruction decoding, breakpoint
//! bookkeeping, GDB monitor command parsing, serial multiplexing framing, competition status
//! overriding and the session state machine. Everything that touches hardware, the VEX SDK or
//! the GDB protocol stub lives in the surrounding application.

pub mod cpu;
pub mod gdb_target;
pub mod debugger;
pub mod sdk;
pub mod transport;
pub mod motors;
pub mod harness;
pub mod packaging;
pub mod text;
