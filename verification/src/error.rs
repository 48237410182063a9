//! The conditions that the library reports to its callers.

use vstd::prelude::*;

use crate::types::response_status::ResponseStatus;

verus! {

/// What went wrong in a call.
#[derive(Clone, Copy, Debug, PartialEq, Eq)]
pub enum Error {
    /// Message data of the wrong length: the length found, then the length
    /// expected or the longest allowed.
    InvalidDataLength((usize, usize)),
    /// A byte sequence of the wrong length: the length found, then the length
    /// expected.
    InvalidLength((usize, usize)),
    /// A frame whose stored checksum differs from the one computed over it:
    /// the stored one, then the computed one.
    ChecksumMismatch((u16, u16)),
    /// A frame that does not begin with the start byte, or in which a start
    /// byte stands alone where byte-stuffing wants a pair.
    FramingError,
    /// Bytes or a payload of another event than the one asked for: the event
    /// found, then the event expected.
    InvalidEvent((ResponseStatus, ResponseStatus)),
    /// Any other failure, by its code.
    Generic(i64),
}

} // verus!
