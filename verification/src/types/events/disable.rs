//! The event for a disable command.

use vstd::prelude::*;

use crate::types::events::method::{spec_method_str, Method};

verus! {

/// Represents a disable command.
#[derive(Clone, Copy, Debug, PartialEq, Eq, Structural)]
pub struct DisableEvent;

impl DisableEvent {
    /// Creates a new [DisableEvent].
    pub fn new() -> (event: Self)
        ensures
            event == DisableEvent,
    {
        DisableEvent
    }

    /// Gets the [Method] for the [DisableEvent].
    pub fn method() -> (method: Method)
        ensures
            method == Method::Disable,
    {
        Method::Disable
    }

    /// Converts the [DisableEvent] to a string.
    pub fn to_str(&self) -> (s: &'static str)
        ensures
            s@ == spec_method_str(Method::Disable),
    {
        Self::method().to_str()
    }

    /// Gets the length of the event in a polling response.
    pub fn len() -> (len: usize)
        ensures
            len == 1,
    {
        1
    }
}

impl Default for DisableEvent {
    fn default() -> (event: Self)
        ensures
            event == DisableEvent,
    {
        DisableEvent
    }
}

} // verus!
