//! The event for a reset of the device.

use vstd::prelude::*;
use vstd::std_specs::convert::TryFromSpecImpl;

use crate::error::Error;
use crate::types::events::method::Method;
use crate::types::response_status::{spec_status_from_u8, ResponseStatus};

verus! {

/// Represents a reset of the device.
#[derive(Clone, Copy, Debug, PartialEq, Eq, Structural)]
pub struct ResetEvent;

impl ResetEvent {
    /// Creates a new [ResetEvent].
    pub fn new() -> (event: Self)
        ensures
            event == ResetEvent,
    {
        ResetEvent
    }

    /// Gets the [Method] for the [ResetEvent].
    pub fn method() -> (method: Method)
        ensures
            method == Method::Reset,
    {
        Method::Reset
    }

    /// Gets the length of the event in a polling response.
    pub fn len() -> (len: usize)
        ensures
            len == 1,
    {
        1
    }
}

impl TryFrom<&[u8]> for ResetEvent {
    type Error = Error;

    /// Reads the event from the bytes of a polling response. Fails with the
    /// length found and the length wanted where there is no byte, and with the
    /// event found and the event wanted where the first byte stands for
    /// another event.
    fn try_from(val: &[u8]) -> (res: Result<Self, Error>) {
        if val.len() == 0 {
            Err(Error::InvalidLength((val.len(), 1)))
        } else {
            let status: ResponseStatus = ResponseStatus::from(val[0]);
            match status {
                ResponseStatus::DeviceReset => Ok(Self::new()),
                event => Err(Error::InvalidEvent((event, ResponseStatus::DeviceReset))),
            }
        }
    }
}

impl TryFromSpecImpl<&[u8]> for ResetEvent {
    open spec fn obeys_try_from_spec() -> bool {
        true
    }

    open spec fn try_from_spec(val: &[u8]) -> Result<Self, Error> {
        if val@.len() == 0 {
            Err(Error::InvalidLength((0, 1)))
        } else if spec_status_from_u8(val@[0]) == ResponseStatus::DeviceReset {
            Ok(ResetEvent)
        } else {
            Err(Error::InvalidEvent((spec_status_from_u8(val@[0]), ResponseStatus::DeviceReset)))
        }
    }
}

impl Default for ResetEvent {
    fn default() -> (event: Self)
        ensures
            event == ResetEvent,
    {
        ResetEvent
    }
}

} // verus!
