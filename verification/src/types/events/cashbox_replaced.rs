//! The event for a return of the cashbox.

use vstd::prelude::*;
use vstd::std_specs::convert::TryFromSpecImpl;

use crate::error::Error;
use crate::types::events::method::{spec_method_str, Method};
use crate::types::response_status::{spec_status_from_u8, ResponseStatus};

verus! {

/// Represents a return of the cashbox.
#[derive(Clone, Copy, Debug, PartialEq, Eq, Structural)]
pub struct CashboxReplacedEvent;

impl CashboxReplacedEvent {
    /// Creates a new [CashboxReplacedEvent].
    pub fn new() -> (event: Self)
        ensures
            event == CashboxReplacedEvent,
    {
        CashboxReplacedEvent
    }

    /// Gets the [Method] for the [CashboxReplacedEvent].
    pub fn method() -> (method: Method)
        ensures
            method == Method::CashboxReplaced,
    {
        Method::CashboxReplaced
    }

    /// Converts the [CashboxReplacedEvent] to a string.
    pub fn to_str(&self) -> (s: &'static str)
        ensures
            s@ == spec_method_str(Method::CashboxReplaced),
    {
        Self::method().to_str()
    }

    /// Gets the length of the event in a polling response.
    pub fn len() -> (len: usize)
        ensures
            len == 1,
    {
        1
    }
}

impl TryFrom<&[u8]> for CashboxReplacedEvent {
    type Error = Error;

    /// Reads the event from the bytes of a polling response. Fails with the
    /// length found and the length wanted where there is no byte, and with the
    /// event found and the event wanted where the first byte stands for
    /// another event.
    fn try_from(val: &[u8]) -> (res: Result<Self, Error>) {
        if val.len() == 0 {
            Err(Error::InvalidLength((val.len(), 1)))
        } else {
            let status: ResponseStatus = ResponseStatus::from(val[0]);
            match status {
                ResponseStatus::CashboxReplaced => Ok(Self::new()),
                event => Err(Error::InvalidEvent((event, ResponseStatus::CashboxReplaced))),
            }
        }
    }
}

impl TryFromSpecImpl<&[u8]> for CashboxReplacedEvent {
    open spec fn obeys_try_from_spec() -> bool {
        true
    }

    open spec fn try_from_spec(val: &[u8]) -> Result<Self, Error> {
        if val@.len() == 0 {
            Err(Error::InvalidLength((0, 1)))
        } else if spec_status_from_u8(val@[0]) == ResponseStatus::CashboxReplaced {
            Ok(CashboxReplacedEvent)
        } else {
            Err(Error::InvalidEvent((spec_status_from_u8(val@[0]), ResponseStatus::CashboxReplaced)))
        }
    }
}

impl Default for CashboxReplacedEvent {
    fn default() -> (event: Self)
        ensures
            event == CashboxReplacedEvent,
    {
        CashboxReplacedEvent
    }
}

} // verus!
