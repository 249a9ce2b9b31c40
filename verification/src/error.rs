//! Error kinds reported by the codec.

use vstd::prelude::*;

verus! {

/// Why an operation did not take effect.
#[derive(Debug, Clone, Copy, PartialEq, Eq, Structural)]
pub enum SlcanError {
    /// Hex text that holds a character outside the hex digit set or has odd
    /// length, or a byte group that is too short to hold a number.
    InvalidInput,
    /// A received line that is too short, unterminated, of an unknown frame
    /// type, or whose id or data field is malformed.
    InvalidData,
    /// A command was sent but the single read that followed did not end in a
    /// carriage return.
    TimedOut,
    /// The underlying transport failed.
    Io,
}

} // verus!
