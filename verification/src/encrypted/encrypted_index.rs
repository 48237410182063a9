//! Byte positions of the fields of an encrypted message.

use vstd::prelude::*;

verus! {

/// Position of the start marker.
pub const STEX: usize = 0;

/// Position of the length byte.
pub const LEN: usize = 1;

/// Position of the first count byte.
pub const COUNT: usize = 2;

/// Position after the last count byte.
pub const COUNT_END: usize = 6;

/// Position of the first data byte.
pub const DATA: usize = 6;

} // verus!
