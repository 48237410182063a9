//! The method that an event belongs to.

use vstd::prelude::*;
use vstd::std_specs::convert::FromSpecImpl;

use crate::types::response_status::ResponseStatus;

verus! {

/// Method of a command or of an event of a polling response.
#[derive(Clone, Copy, Debug, PartialEq, Eq, Structural)]
pub enum Method {
    Fail,
    Disable,
    Shutdown,
    Enable,
    Reject,
    Stack,
    Status,
    CashboxRemoved,
    CashboxReplaced,
    Disabled,
    FraudAttempt,
    NoteClearedFromFront,
    NoteClearedIntoCashbox,
    NoteCredit,
    Read,
    Rejected,
    Rejecting,
    Reset,
    Stacked,
    StackerFull,
    Stacking,
    UnsafeJam,
    /// A method that this library does not know, by its number.
    Reserved(u8),
}

/// The name of a method.
pub open spec fn spec_method_str(method: Method) -> Seq<char> {
    match method {
        Method::Fail => "fail"@,
        Method::Disable => "disable"@,
        Method::Shutdown => "shutdown"@,
        Method::Enable => "enable"@,
        Method::Reject => "reject"@,
        Method::Stack => "stack"@,
        Method::Status => "status"@,
        Method::CashboxRemoved => "cashbox_removed"@,
        Method::CashboxReplaced => "cashbox_replaced"@,
        Method::Disabled => "disabled"@,
        Method::FraudAttempt => "fraud_attempt"@,
        Method::NoteClearedFromFront => "note_cleared_from_front"@,
        Method::NoteClearedIntoCashbox => "note_cleared_into_cashbox"@,
        Method::NoteCredit => "note_credit"@,
        Method::Read => "read"@,
        Method::Rejected => "rejected"@,
        Method::Rejecting => "rejecting"@,
        Method::Reset => "reset"@,
        Method::Stacked => "stacked"@,
        Method::StackerFull => "stacker_full"@,
        Method::Stacking => "stacking"@,
        Method::UnsafeJam => "unsafe_jam"@,
        Method::Reserved(_) => "reserved"@,
    }
}

/// The status that stands for the event of a method in a polling response. A
/// method that is no event of a device, and one that is not known, has the
/// reserved status.
pub open spec fn spec_method_status(method: Method) -> ResponseStatus {
    match method {
        Method::Fail => ResponseStatus::Fail,
        Method::Disable => ResponseStatus::Reserved,
        Method::Shutdown => ResponseStatus::Reserved,
        Method::Enable => ResponseStatus::Reserved,
        Method::Reject => ResponseStatus::Reserved,
        Method::Stack => ResponseStatus::Reserved,
        Method::Status => ResponseStatus::Reserved,
        Method::CashboxRemoved => ResponseStatus::CashboxRemoved,
        Method::CashboxReplaced => ResponseStatus::CashboxReplaced,
        Method::Disabled => ResponseStatus::Disabled,
        Method::FraudAttempt => ResponseStatus::FraudAttempt,
        Method::NoteClearedFromFront => ResponseStatus::NoteClearedFromFront,
        Method::NoteClearedIntoCashbox => ResponseStatus::NoteClearedIntoCashbox,
        Method::NoteCredit => ResponseStatus::NoteCredit,
        Method::Read => ResponseStatus::Read,
        Method::Rejected => ResponseStatus::Rejected,
        Method::Rejecting => ResponseStatus::Rejecting,
        Method::Reset => ResponseStatus::DeviceReset,
        Method::Stacked => ResponseStatus::Stacked,
        Method::StackerFull => ResponseStatus::StackerFull,
        Method::Stacking => ResponseStatus::Stacking,
        Method::UnsafeJam => ResponseStatus::UnsafeJam,
        Method::Reserved(_) => ResponseStatus::Reserved,
    }
}

impl Method {
    /// Gets the name of the method.
    pub fn to_str(&self) -> (s: &'static str)
        ensures
            s@ == spec_method_str(*self),
    {
        match self {
            Method::Fail => "fail",
            Method::Disable => "disable",
            Method::Shutdown => "shutdown",
            Method::Enable => "enable",
            Method::Reject => "reject",
            Method::Stack => "stack",
            Method::Status => "status",
            Method::CashboxRemoved => "cashbox_removed",
            Method::CashboxReplaced => "cashbox_replaced",
            Method::Disabled => "disabled",
            Method::FraudAttempt => "fraud_attempt",
            Method::NoteClearedFromFront => "note_cleared_from_front",
            Method::NoteClearedIntoCashbox => "note_cleared_into_cashbox",
            Method::NoteCredit => "note_credit",
            Method::Read => "read",
            Method::Rejected => "rejected",
            Method::Rejecting => "rejecting",
            Method::Reset => "reset",
            Method::Stacked => "stacked",
            Method::StackerFull => "stacker_full",
            Method::Stacking => "stacking",
            Method::UnsafeJam => "unsafe_jam",
            Method::Reserved(_) => "reserved",
        }
    }
}

impl From<Method> for ResponseStatus {
    fn from(method: Method) -> (status: Self) {
        match method {
            Method::Fail => ResponseStatus::Fail,
            Method::Disable => ResponseStatus::Reserved,
            Method::Shutdown => ResponseStatus::Reserved,
            Method::Enable => ResponseStatus::Reserved,
            Method::Reject => ResponseStatus::Reserved,
            Method::Stack => ResponseStatus::Reserved,
            Method::Status => ResponseStatus::Reserved,
            Method::CashboxRemoved => ResponseStatus::CashboxRemoved,
            Method::CashboxReplaced => ResponseStatus::CashboxReplaced,
            Method::Disabled => ResponseStatus::Disabled,
            Method::FraudAttempt => ResponseStatus::FraudAttempt,
            Method::NoteClearedFromFront => ResponseStatus::NoteClearedFromFront,
            Method::NoteClearedIntoCashbox => ResponseStatus::NoteClearedIntoCashbox,
            Method::NoteCredit => ResponseStatus::NoteCredit,
            Method::Read => ResponseStatus::Read,
            Method::Rejected => ResponseStatus::Rejected,
            Method::Rejecting => ResponseStatus::Rejecting,
            Method::Reset => ResponseStatus::DeviceReset,
            Method::Stacked => ResponseStatus::Stacked,
            Method::StackerFull => ResponseStatus::StackerFull,
            Method::Stacking => ResponseStatus::Stacking,
            Method::UnsafeJam => ResponseStatus::UnsafeJam,
            Method::Reserved(_) => ResponseStatus::Reserved,
        }
    }
}

impl FromSpecImpl<Method> for ResponseStatus {
    open spec fn obeys_from_spec() -> bool {
        true
    }

    open spec fn from_spec(method: Method) -> Self {
        spec_method_status(method)
    }
}

} // verus!
