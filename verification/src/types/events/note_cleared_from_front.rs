//! The event for a note cleared from the front.

use vstd::prelude::*;
use vstd::std_specs::convert::FromSpecImpl;

use crate::error::Error;
use crate::types::channel_value::{channel_value, ChannelValue};
use crate::types::events::method::{spec_method_str, Method};
use crate::types::response_status::{spec_status_from_u8, ResponseStatus};

verus! {

/// Represents a note cleared from the front, with the value of the note.
#[derive(Clone, Copy, Debug, PartialEq, Eq, Structural)]
pub struct NoteClearedFromFrontEvent {
    value: ChannelValue,
}

impl NoteClearedFromFrontEvent {
    /// The value of the note.
    pub closed spec fn spec_value(&self) -> ChannelValue {
        self.value
    }

    /// The event for a note of the given value.
    pub closed spec fn spec_new(value: ChannelValue) -> Self {
        NoteClearedFromFrontEvent { value }
    }

    /// The event with a note of no value.
    pub open spec fn spec_default() -> Self {
        Self::spec_new(ChannelValue(0))
    }

    /// An event has the value that it was made with, and is known by it.
    pub proof fn lemma_spec_new(value: ChannelValue)
        ensures
            Self::spec_new(value).spec_value() == value,
    {
    }

    /// Creates a new [NoteClearedFromFrontEvent] from the value of the note.
    pub fn new(value: ChannelValue) -> (event: Self)
        ensures
            event == Self::spec_new(value),
            event.spec_value() == value,
    {
        NoteClearedFromFrontEvent { value }
    }

    /// Gets the [Method] for the [NoteClearedFromFrontEvent].
    pub fn method() -> (method: Method)
        ensures
            method == Method::NoteClearedFromFront,
    {
        Method::NoteClearedFromFront
    }

    /// Converts the [NoteClearedFromFrontEvent] to a string.
    pub fn to_str(&self) -> (s: &'static str)
        ensures
            s@ == spec_method_str(Method::NoteClearedFromFront),
    {
        Self::method().to_str()
    }

    /// Gets the value of the note.
    pub fn value(&self) -> (value: &ChannelValue)
        ensures
            *value == self.spec_value(),
    {
        &self.value
    }

    /// Sets the value of the note.
    pub fn set_value(&mut self, value: ChannelValue)
        ensures
            *final(self) == Self::spec_new(value),
            final(self).spec_value() == value,
    {
        self.value = value;
    }

    /// Gets the length of the event in a polling response.
    pub fn len() -> (len: usize)
        ensures
            len == 2,
    {
        2
    }

    /// The event that the bytes of a polling response stand for, with the
    /// values of the device's channels: the status byte, then the channel of
    /// the note.
    pub open spec fn spec_from_bytes(val: Seq<u8>, channels: Seq<ChannelValue>) -> Result<
        Self,
        Error,
    > {
        if val.len() < 2 {
            Err(Error::InvalidLength((val.len() as usize, 2)))
        } else if spec_status_from_u8(val[0]) != ResponseStatus::NoteClearedFromFront {
            Err(Error::InvalidEvent((spec_status_from_u8(val[0]), ResponseStatus::NoteClearedFromFront)))
        } else if val[1] as int >= channels.len() {
            Err(Error::InvalidLength((val[1] as usize, channels.len() as usize)))
        } else {
            Ok(Self::spec_new(channels[val[1] as int]))
        }
    }

    /// Reads the event from the bytes of a polling response: the status byte,
    /// then the channel of the note, whose value is looked up in `channels`.
    ///
    /// Fails with the length found and the length wanted where there are fewer
    /// than two bytes; with the event found and the event wanted where the
    /// status byte stands for another event; and with the channel and the
    /// number of channels where the device has no such channel.
    pub fn from_bytes(val: &[u8], channels: &[ChannelValue]) -> (res: Result<Self, Error>)
        ensures
            res == Self::spec_from_bytes(val@, channels@),
    {
        if val.len() < 2 {
            return Err(Error::InvalidLength((val.len(), 2)));
        }
        let status: ResponseStatus = ResponseStatus::from(val[0]);
        match status {
            ResponseStatus::NoteClearedFromFront => match channel_value(channels, val[1] as usize) {
                Ok(value) => Ok(Self::new(value)),
                Err(e) => Err(e),
            },
            event => Err(Error::InvalidEvent((event, ResponseStatus::NoteClearedFromFront))),
        }
    }
}

impl From<ChannelValue> for NoteClearedFromFrontEvent {
    fn from(val: ChannelValue) -> (event: Self) {
        Self::new(val)
    }
}

impl FromSpecImpl<ChannelValue> for NoteClearedFromFrontEvent {
    open spec fn obeys_from_spec() -> bool {
        true
    }

    open spec fn from_spec(val: ChannelValue) -> Self {
        NoteClearedFromFrontEvent::spec_new(val)
    }
}

impl Default for NoteClearedFromFrontEvent {
    fn default() -> (event: Self)
        ensures
            event == Self::spec_default(),
    {
        NoteClearedFromFrontEvent { value: ChannelValue(0) }
    }
}

} // verus!
