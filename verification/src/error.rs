//! The library's error taxonomy.
//!
//! Socket failures stay with the caller that owns the socket; everything the
//! library itself can detect is one of these values.

use vstd::prelude::*;
use crate::opcode::RequestResponseType;

verus! {

/// What went wrong while decoding a frame, converting a field, or reading a
/// controller's answer.
#[derive(PartialEq, Eq, Structural, Clone, Copy, Debug)]
pub enum UhppoteError {
    /// A received datagram was not exactly 64 bytes long.
    FrameLength,
    /// The opcode byte of a received frame is not the one the exchange
    /// expects.
    UnexpectedOpcode,
    /// No message kind carries this opcode byte.
    UnknownOpcode(u8),
    /// A BCD field holds a nibble greater than nine.
    InvalidBcd,
    /// A date field does not name a real civil date.
    InvalidDate,
    /// A time field does not name a real wall-clock time.
    InvalidTime,
    /// The controller answered the operation with a zero success byte.
    Rejected(RequestResponseType),
    /// A clear operation echoed back a wrong magic word.
    MagicMismatch,
    /// Time-profile identifiers 0 and 1 are reserved and cannot be written.
    InvalidProfileId,
    /// The passive listener received a frame of this opcode, which it cannot
    /// handle; only status pushes arrive on a listener socket.
    CannotListen(u8),
}

} // verus!
