//! The event for a reject command.

use vstd::prelude::*;

use crate::types::events::method::{spec_method_str, Method};

verus! {

/// Represents a reject command.
#[derive(Clone, Copy, Debug, PartialEq, Eq, Structural)]
pub struct RejectEvent;

impl RejectEvent {
    /// Creates a new [RejectEvent].
    pub fn new() -> (event: Self)
        ensures
            event == RejectEvent,
    {
        RejectEvent
    }

    /// Gets the [Method] for the [RejectEvent].
    pub fn method() -> (method: Method)
        ensures
            method == Method::Reject,
    {
        Method::Reject
    }

    /// Converts the [RejectEvent] to a string.
    pub fn to_str(&self) -> (s: &'static str)
        ensures
            s@ == spec_method_str(Method::Reject),
    {
        Self::method().to_str()
    }

    /// Gets the length of the event in a polling response.
    pub fn len() -> (len: usize)
        ensures
            len == 1,
    {
        1
    }
}

impl Default for RejectEvent {
    fn default() -> (event: Self)
        ensures
            event == RejectEvent,
    {
        RejectEvent
    }
}

} // verus!
