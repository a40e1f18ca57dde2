//! A line-oriented relay between a console and a byte-oriented serial device.
//!
//! The crate provides the framing layer (how raw bytes become discrete text
//! lines, and back) and the bidirectional forwarding state machine that joins
//! the two relay directions. Raw I/O, port configuration and argument handling
//! are left to the surrounding program.

use vstd::prelude::*;

pub mod frame;
pub mod text;
pub mod device;
pub mod console;
pub mod forward;

verus! {

/// Why a relay direction stopped working.
#[derive(Clone, Copy, Debug, PartialEq, Eq, Structural)]
pub enum RelayError {
    /// A complete frame did not hold valid text.
    Decode,
    /// The console input ran past the frame length bound with no terminator.
    FrameTooLong,
    /// The underlying read or write stream failed.
    Transport,
}

} // verus!
