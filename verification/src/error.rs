//! The ways in which decoding can fail.

use vstd::prelude::*;

verus! {

/// Why a byte sequence is not a message.
#[derive(Debug, Clone, Copy, PartialEq, Eq, Structural)]
pub enum DecodeError {
    /// The input holds no byte at all.
    EmptyInput,
    /// The first byte, given here, is not the status byte of any message.
    InvalidStatusByte(u8),
    /// The status byte asks for more bytes than follow it.
    ///
    /// The first number is how many bytes the status byte asks for, the
    /// second how many do follow it. The first byte that is missing would
    /// stand in the input at the position one past the second number.
    MissingDataByte(usize, usize),
}

} // verus!
