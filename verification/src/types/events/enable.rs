//! The event for a enable command.

use vstd::prelude::*;

use crate::types::events::method::{spec_method_str, Method};

verus! {

/// Represents a enable command.
#[derive(Clone, Copy, Debug, PartialEq, Eq, Structural)]
pub struct EnableEvent;

impl EnableEvent {
    /// Creates a new [EnableEvent].
    pub fn new() -> (event: Self)
        ensures
            event == EnableEvent,
    {
        EnableEvent
    }

    /// Gets the [Method] for the [EnableEvent].
    pub fn method() -> (method: Method)
        ensures
            method == Method::Enable,
    {
        Method::Enable
    }

    /// Converts the [EnableEvent] to a string.
    pub fn to_str(&self) -> (s: &'static str)
        ensures
            s@ == spec_method_str(Method::Enable),
    {
        Self::method().to_str()
    }

    /// Gets the length of the event in a polling response.
    pub fn len() -> (len: usize)
        ensures
            len == 1,
    {
        1
    }
}

impl Default for EnableEvent {
    fn default() -> (event: Self)
        ensures
            event == EnableEvent,
    {
        EnableEvent
    }
}

} // verus!
