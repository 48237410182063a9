//! The sequence count that every encrypted message carries, and the counter it
//! is taken from.

use vstd::prelude::*;

verus! {

/// Anti-replay count carried by an encrypted message, four bytes on the wire,
/// least significant first.
#[derive(Clone, Copy, Debug, PartialEq, Eq, Structural)]
pub struct SequenceCount(pub u32);

/// The four wire bytes of a count, least significant first.
pub open spec fn spec_count_to_bytes(count: u32) -> Seq<u8> {
    seq![
        (count & 0xff) as u8,
        ((count >> 8) & 0xff) as u8,
        ((count >> 16) & 0xff) as u8,
        ((count >> 24) & 0xff) as u8,
    ]
}

/// The count that four wire bytes stand for.
pub open spec fn spec_count_from_bytes(bytes: Seq<u8>) -> u32
    recommends
        bytes.len() == 4,
{
    (bytes[0] as u32) | ((bytes[1] as u32) << 8) | ((bytes[2] as u32) << 16) | ((bytes[3] as u32)
        << 24)
}

/// Reading back the bytes written for a count gives that count.
pub proof fn lemma_count_bytes_round_trip(count: u32)
    ensures
        spec_count_to_bytes(count).len() == 4,
        spec_count_from_bytes(spec_count_to_bytes(count)) == count,
{
    let b0 = (count & 0xff) as u8;
    let b1 = ((count >> 8) & 0xff) as u8;
    let b2 = ((count >> 16) & 0xff) as u8;
    let b3 = ((count >> 24) & 0xff) as u8;
    assert((b0 as u32) | ((b1 as u32) << 8) | ((b2 as u32) << 16) | ((b3 as u32) << 24) == count)
        by (bit_vector)
        requires
            b0 == (count & 0xff) as u8,
            b1 == ((count >> 8) & 0xff) as u8,
            b2 == ((count >> 16) & 0xff) as u8,
            b3 == ((count >> 24) & 0xff) as u8,
    ;
}

impl View for SequenceCount {
    type V = u32;

    open spec fn view(&self) -> u32 {
        self.0
    }
}

impl SequenceCount {
    /// Creates a count of zero.
    pub fn new() -> (count: Self)
        ensures
            count@ == 0,
    {
        SequenceCount(0)
    }

    /// Creates a count from its value.
    pub fn from_inner(inner: u32) -> (count: Self)
        ensures
            count@ == inner,
    {
        SequenceCount(inner)
    }

    /// Gets the value of the count.
    pub fn as_inner(&self) -> (inner: u32)
        ensures
            inner == self@,
    {
        self.0
    }

    /// Gets the four wire bytes of the count, least significant first.
    pub fn to_le_bytes(&self) -> (bytes: [u8; 4])
        ensures
            bytes@ == spec_count_to_bytes(self@),
    {
        let c: u32 = self.0;
        let bytes: [u8; 4] = [
            (c & 0xff) as u8,
            ((c >> 8) & 0xff) as u8,
            ((c >> 16) & 0xff) as u8,
            ((c >> 24) & 0xff) as u8,
        ];
        assert(bytes@ =~= spec_count_to_bytes(self@));
        bytes
    }

    /// Reads a count from its four wire bytes, least significant first.
    pub fn from_le_bytes(bytes: &[u8; 4]) -> (count: Self)
        ensures
            count@ == spec_count_from_bytes(bytes@),
    {
        SequenceCount(
            (bytes[0] as u32) | ((bytes[1] as u32) << 8) | ((bytes[2] as u32) << 16) | ((
            bytes[3] as u32) << 24),
        )
    }
}

/// The counter that encrypted messages take their sequence count from. Both
/// ends of a channel advance theirs by one for every message that they
/// encrypt or decrypt.
#[derive(Clone, Copy, Debug, PartialEq, Eq, Structural)]
pub struct SequenceCounter {
    count: u32,
}

/// The counter value that follows `count`: one more, back to zero after the
/// largest.
pub open spec fn spec_next_count(count: u32) -> u32 {
    if count == u32::MAX {
        0
    } else {
        (count + 1) as u32
    }
}

impl View for SequenceCounter {
    type V = u32;

    closed spec fn view(&self) -> u32 {
        self.count
    }
}

impl SequenceCounter {
    /// Creates a counter that stands at zero.
    pub fn new() -> (counter: Self)
        ensures
            counter@ == 0,
    {
        SequenceCounter { count: 0 }
    }

    /// Reads the counter.
    pub fn current(&self) -> (count: SequenceCount)
        ensures
            count@ == self@,
    {
        SequenceCount(self.count)
    }

    /// Advances the counter by one and returns the new value. After the
    /// largest value the counter starts again at zero.
    pub fn increment(&mut self) -> (count: SequenceCount)
        ensures
            final(self)@ == spec_next_count(old(self)@),
            count@ == final(self)@,
    {
        self.count = self.count.wrapping_add(1);
        SequenceCount(self.count)
    }

    /// Sets the counter, as both ends do when a channel is set up.
    pub fn set(&mut self, count: SequenceCount)
        ensures
            final(self)@ == count@,
    {
        self.count = count.0;
    }
}

} // verus!
