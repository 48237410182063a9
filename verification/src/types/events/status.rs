//! The event for a status report.

use vstd::prelude::*;

use crate::types::device_status::DeviceStatus;
use crate::types::events::method::{spec_method_str, Method};

verus! {

/// Represents a status report.
#[derive(Clone, Copy, Debug, PartialEq, Eq)]
pub struct StatusEvent {
    details: DeviceStatus,
}

impl StatusEvent {
    /// The report of the device.
    pub closed spec fn spec_device_status(&self) -> DeviceStatus {
        self.details
    }

    /// The event for the given report.
    pub closed spec fn spec_new(details: DeviceStatus) -> Self {
        StatusEvent { details }
    }

    /// The event with the report of a device of which nothing is known.
    pub open spec fn spec_default() -> Self {
        Self::spec_new(DeviceStatus::spec_default())
    }

    /// An event has the report that it was made with.
    pub proof fn lemma_spec_new(details: DeviceStatus)
        ensures
            Self::spec_new(details).spec_device_status() == details,
    {
    }

    /// Creates a new [StatusEvent] from the report of the device.
    pub fn new(details: DeviceStatus) -> (event: Self)
        ensures
            event == Self::spec_new(details),
            event.spec_device_status() == details,
    {
        StatusEvent { details }
    }

    /// Gets the [Method] for the [StatusEvent].
    pub fn method() -> (method: Method)
        ensures
            method == Method::Status,
    {
        Method::Status
    }

    /// Converts the [StatusEvent] to a string.
    pub fn to_str(&self) -> (s: &'static str)
        ensures
            s@ == spec_method_str(Method::Status),
    {
        Self::method().to_str()
    }

    /// Gets a reference to the [DeviceStatus].
    pub fn device_status(&self) -> (details: &DeviceStatus)
        ensures
            *details == self.spec_device_status(),
    {
        &self.details
    }

    /// Gets the length of the event in a polling response.
    pub fn len() -> (len: usize)
        ensures
            len == 14,
    {
        14
    }
}

impl Default for StatusEvent {
    fn default() -> (event: Self)
        ensures
            event == Self::spec_default(),
    {
        StatusEvent { details: DeviceStatus::default() }
    }
}

} // verus!
