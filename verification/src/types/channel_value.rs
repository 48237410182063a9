//! The value of the note that a channel of the device stands for.

use vstd::prelude::*;

use crate::error::Error;

verus! {

/// Value of a note, in units of the device's currency.
#[derive(Clone, Copy, Debug, PartialEq, Eq, Structural)]
pub struct ChannelValue(pub u32);

impl View for ChannelValue {
    type V = u32;

    open spec fn view(&self) -> u32 {
        self.0
    }
}

impl ChannelValue {
    /// Creates a value of zero.
    pub fn new() -> (value: Self)
        ensures
            value@ == 0,
    {
        ChannelValue(0)
    }

    /// Creates a value from its number.
    pub fn from_inner(inner: u32) -> (value: Self)
        ensures
            value@ == inner,
    {
        ChannelValue(inner)
    }

    /// Gets the number of the value.
    pub fn as_inner(&self) -> (inner: u32)
        ensures
            inner == self@,
    {
        self.0
    }
}

impl Default for ChannelValue {
    fn default() -> (value: Self)
        ensures
            value@ == 0,
    {
        ChannelValue(0)
    }
}

/// Looks up the value of the channel `index` in the values that the device
/// reported for its channels, first channel first. Fails, with the index and
/// the number of channels, where the device has no such channel.
pub fn channel_value(channels: &[ChannelValue], index: usize) -> (res: Result<ChannelValue, Error>)
    ensures
        match res {
            Ok(value) => index < channels.len() && value == channels@[index as int],
            Err(e) => index >= channels.len() && e == Error::InvalidLength(
                (index, channels.len()),
            ),
        },
{
    if index < channels.len() {
        Ok(channels[index])
    } else {
        Err(Error::InvalidLength((index, channels.len())))
    }
}

} // verus!
