//! The event for a stack command.

use vstd::prelude::*;

use crate::types::events::method::{spec_method_str, Method};

verus! {

/// Represents a stack command.
#[derive(Clone, Copy, Debug, PartialEq, Eq, Structural)]
pub struct StackEvent;

impl StackEvent {
    /// Creates a new [StackEvent].
    pub fn new() -> (event: Self)
        ensures
            event == StackEvent,
    {
        StackEvent
    }

    /// Gets the [Method] for the [StackEvent].
    pub fn method() -> (method: Method)
        ensures
            method == Method::Stack,
    {
        Method::Stack
    }

    /// Converts the [StackEvent] to a string.
    pub fn to_str(&self) -> (s: &'static str)
        ensures
            s@ == spec_method_str(Method::Stack),
    {
        Self::method().to_str()
    }

    /// Gets the length of the event in a polling response.
    pub fn len() -> (len: usize)
        ensures
            len == 1,
    {
        1
    }
}

impl Default for StackEvent {
    fn default() -> (event: Self)
        ensures
            event == StackEvent,
    {
        StackEvent
    }
}

} // verus!
