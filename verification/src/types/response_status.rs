//! The status byte that opens a response or an event of a polling response.

use vstd::prelude::*;
use vstd::std_specs::convert::FromSpecImpl;

verus! {

/// Status of a response, or kind of an event in a polling response.
#[derive(Clone, Copy, Debug, PartialEq, Eq, Structural)]
pub enum ResponseStatus {
    /// The command was carried out.
    Success,
    DeviceReset,
    CommandNotKnown,
    WrongNumberParameters,
    ParameterOutOfRange,
    CommandCannotBeProcessed,
    SoftwareError,
    Fail,
    KeyNotSet,
    Read,
    NoteCredit,
    Rejecting,
    Rejected,
    Stacking,
    Stacked,
    SafeJam,
    UnsafeJam,
    Disabled,
    FraudAttempt,
    StackerFull,
    NoteClearedFromFront,
    NoteClearedIntoCashbox,
    CashboxRemoved,
    CashboxReplaced,
    /// Every byte that stands for none of the others.
    Reserved,
}

/// The status that a byte stands for.
pub open spec fn spec_status_from_u8(byte: u8) -> ResponseStatus {
    if byte == 0xF0 {
        ResponseStatus::Success
    } else if byte == 0xF1 {
        ResponseStatus::DeviceReset
    } else if byte == 0xF2 {
        ResponseStatus::CommandNotKnown
    } else if byte == 0xF3 {
        ResponseStatus::WrongNumberParameters
    } else if byte == 0xF4 {
        ResponseStatus::ParameterOutOfRange
    } else if byte == 0xF5 {
        ResponseStatus::CommandCannotBeProcessed
    } else if byte == 0xF6 {
        ResponseStatus::SoftwareError
    } else if byte == 0xF8 {
        ResponseStatus::Fail
    } else if byte == 0xFA {
        ResponseStatus::KeyNotSet
    } else if byte == 0xEF {
        ResponseStatus::Read
    } else if byte == 0xEE {
        ResponseStatus::NoteCredit
    } else if byte == 0xED {
        ResponseStatus::Rejecting
    } else if byte == 0xEC {
        ResponseStatus::Rejected
    } else if byte == 0xCC {
        ResponseStatus::Stacking
    } else if byte == 0xEB {
        ResponseStatus::Stacked
    } else if byte == 0xEA {
        ResponseStatus::SafeJam
    } else if byte == 0xE9 {
        ResponseStatus::UnsafeJam
    } else if byte == 0xE8 {
        ResponseStatus::Disabled
    } else if byte == 0xE6 {
        ResponseStatus::FraudAttempt
    } else if byte == 0xE7 {
        ResponseStatus::StackerFull
    } else if byte == 0xE1 {
        ResponseStatus::NoteClearedFromFront
    } else if byte == 0xE2 {
        ResponseStatus::NoteClearedIntoCashbox
    } else if byte == 0xE3 {
        ResponseStatus::CashboxRemoved
    } else if byte == 0xE4 {
        ResponseStatus::CashboxReplaced
    } else {
        ResponseStatus::Reserved
    }
}

/// The byte that stands for a status.
pub open spec fn spec_status_to_u8(status: ResponseStatus) -> u8 {
    match status {
        ResponseStatus::Success => 0xF0,
        ResponseStatus::DeviceReset => 0xF1,
        ResponseStatus::CommandNotKnown => 0xF2,
        ResponseStatus::WrongNumberParameters => 0xF3,
        ResponseStatus::ParameterOutOfRange => 0xF4,
        ResponseStatus::CommandCannotBeProcessed => 0xF5,
        ResponseStatus::SoftwareError => 0xF6,
        ResponseStatus::Fail => 0xF8,
        ResponseStatus::KeyNotSet => 0xFA,
        ResponseStatus::Read => 0xEF,
        ResponseStatus::NoteCredit => 0xEE,
        ResponseStatus::Rejecting => 0xED,
        ResponseStatus::Rejected => 0xEC,
        ResponseStatus::Stacking => 0xCC,
        ResponseStatus::Stacked => 0xEB,
        ResponseStatus::SafeJam => 0xEA,
        ResponseStatus::UnsafeJam => 0xE9,
        ResponseStatus::Disabled => 0xE8,
        ResponseStatus::FraudAttempt => 0xE6,
        ResponseStatus::StackerFull => 0xE7,
        ResponseStatus::NoteClearedFromFront => 0xE1,
        ResponseStatus::NoteClearedIntoCashbox => 0xE2,
        ResponseStatus::CashboxRemoved => 0xE3,
        ResponseStatus::CashboxReplaced => 0xE4,
        ResponseStatus::Reserved => 0xFF,
    }
}

/// Reading the byte written for a status gives that status.
pub proof fn lemma_status_round_trip(status: ResponseStatus)
    ensures
        spec_status_from_u8(spec_status_to_u8(status)) == status,
{
}

impl From<u8> for ResponseStatus {
    fn from(byte: u8) -> (status: Self) {
        if byte == 0xF0 {
            ResponseStatus::Success
        } else if byte == 0xF1 {
            ResponseStatus::DeviceReset
        } else if byte == 0xF2 {
            ResponseStatus::CommandNotKnown
        } else if byte == 0xF3 {
            ResponseStatus::WrongNumberParameters
        } else if byte == 0xF4 {
            ResponseStatus::ParameterOutOfRange
        } else if byte == 0xF5 {
            ResponseStatus::CommandCannotBeProcessed
        } else if byte == 0xF6 {
            ResponseStatus::SoftwareError
        } else if byte == 0xF8 {
            ResponseStatus::Fail
        } else if byte == 0xFA {
            ResponseStatus::KeyNotSet
        } else if byte == 0xEF {
            ResponseStatus::Read
        } else if byte == 0xEE {
            ResponseStatus::NoteCredit
        } else if byte == 0xED {
            ResponseStatus::Rejecting
        } else if byte == 0xEC {
            ResponseStatus::Rejected
        } else if byte == 0xCC {
            ResponseStatus::Stacking
        } else if byte == 0xEB {
            ResponseStatus::Stacked
        } else if byte == 0xEA {
            ResponseStatus::SafeJam
        } else if byte == 0xE9 {
            ResponseStatus::UnsafeJam
        } else if byte == 0xE8 {
            ResponseStatus::Disabled
        } else if byte == 0xE6 {
            ResponseStatus::FraudAttempt
        } else if byte == 0xE7 {
            ResponseStatus::StackerFull
        } else if byte == 0xE1 {
            ResponseStatus::NoteClearedFromFront
        } else if byte == 0xE2 {
            ResponseStatus::NoteClearedIntoCashbox
        } else if byte == 0xE3 {
            ResponseStatus::CashboxRemoved
        } else if byte == 0xE4 {
            ResponseStatus::CashboxReplaced
        } else {
            ResponseStatus::Reserved
        }
    }
}

impl FromSpecImpl<u8> for ResponseStatus {
    open spec fn obeys_from_spec() -> bool {
        true
    }

    open spec fn from_spec(byte: u8) -> Self {
        spec_status_from_u8(byte)
    }
}

impl From<ResponseStatus> for u8 {
    fn from(status: ResponseStatus) -> (byte: u8) {
        match status {
            ResponseStatus::Success => 0xF0,
            ResponseStatus::DeviceReset => 0xF1,
            ResponseStatus::CommandNotKnown => 0xF2,
            ResponseStatus::WrongNumberParameters => 0xF3,
            ResponseStatus::ParameterOutOfRange => 0xF4,
            ResponseStatus::CommandCannotBeProcessed => 0xF5,
            ResponseStatus::SoftwareError => 0xF6,
            ResponseStatus::Fail => 0xF8,
            ResponseStatus::KeyNotSet => 0xFA,
            ResponseStatus::Read => 0xEF,
            ResponseStatus::NoteCredit => 0xEE,
            ResponseStatus::Rejecting => 0xED,
            ResponseStatus::Rejected => 0xEC,
            ResponseStatus::Stacking => 0xCC,
            ResponseStatus::Stacked => 0xEB,
            ResponseStatus::SafeJam => 0xEA,
            ResponseStatus::UnsafeJam => 0xE9,
            ResponseStatus::Disabled => 0xE8,
            ResponseStatus::FraudAttempt => 0xE6,
            ResponseStatus::StackerFull => 0xE7,
            ResponseStatus::NoteClearedFromFront => 0xE1,
            ResponseStatus::NoteClearedIntoCashbox => 0xE2,
            ResponseStatus::CashboxRemoved => 0xE3,
            ResponseStatus::CashboxReplaced => 0xE4,
            ResponseStatus::Reserved => 0xFF,
        }
    }
}

impl FromSpecImpl<ResponseStatus> for u8 {
    open spec fn obeys_from_spec() -> bool {
        true
    }

    open spec fn from_spec(status: ResponseStatus) -> u8 {
        spec_status_to_u8(status)
    }
}

} // verus!
