//! Event types for polling responses.

use vstd::prelude::*;
use vstd::std_specs::convert::{FromSpecImpl, TryFromSpecImpl};

use crate::error::Error;
use crate::types::response_status::ResponseStatus;

pub mod cashbox_removed;
pub mod cashbox_replaced;
pub mod disable;
pub mod disabled;
pub mod enable;
pub mod fraud_attempt;
pub mod method;
pub mod note_cleared_from_front;
pub mod note_cleared_into_cashbox;
pub mod note_credit;
pub mod read;
pub mod reject;
pub mod rejected;
pub mod rejecting;
pub mod reset;
pub mod stack;
pub mod stacked;
pub mod stacker_full;
pub mod stacking;
pub mod status;
pub mod unsafe_jam;

pub use cashbox_removed::CashboxRemovedEvent;
pub use cashbox_replaced::CashboxReplacedEvent;
pub use disable::DisableEvent;
pub use disabled::DisabledEvent;
pub use enable::EnableEvent;
pub use fraud_attempt::FraudAttemptEvent;
pub use method::{spec_method_status, spec_method_str, Method};
pub use note_cleared_from_front::NoteClearedFromFrontEvent;
pub use note_cleared_into_cashbox::NoteClearedIntoCashboxEvent;
pub use note_credit::NoteCreditEvent;
pub use read::ReadEvent;
pub use reject::RejectEvent;
pub use rejected::RejectedEvent;
pub use rejecting::RejectingEvent;
pub use reset::ResetEvent;
pub use stack::StackEvent;
pub use stacked::StackedEvent;
pub use stacker_full::StackerFullEvent;
pub use stacking::StackingEvent;
pub use status::StatusEvent;
pub use unsafe_jam::UnsafeJamEvent;

verus! {

/// Payload of an event: a failure, or one of the events.
#[derive(Clone, Copy, Debug, PartialEq)]
pub enum EventPayload {
    Error(Error),
    DisableEvent(DisableEvent),
    EnableEvent(EnableEvent),
    RejectEvent(RejectEvent),
    StackEvent(StackEvent),
    StatusEvent(StatusEvent),
    CashboxRemovedEvent(CashboxRemovedEvent),
    CashboxReplacedEvent(CashboxReplacedEvent),
    DisabledEvent(DisabledEvent),
    FraudAttemptEvent(FraudAttemptEvent),
    NoteClearedFromFrontEvent(NoteClearedFromFrontEvent),
    NoteClearedIntoCashboxEvent(NoteClearedIntoCashboxEvent),
    NoteCreditEvent(NoteCreditEvent),
    ReadEvent(ReadEvent),
    RejectedEvent(RejectedEvent),
    RejectingEvent(RejectingEvent),
    ResetEvent(ResetEvent),
    StackedEvent(StackedEvent),
    StackerFullEvent(StackerFullEvent),
    StackingEvent(StackingEvent),
    UnsafeJamEvent(UnsafeJamEvent),
}

impl EventPayload {
    /// The method that the payload belongs to: that of its event, and the
    /// failing method for a failure.
    pub open spec fn spec_method(&self) -> Method {
        match self {
            EventPayload::Error(_) => Method::Fail,
            EventPayload::DisableEvent(_) => Method::Disable,
            EventPayload::EnableEvent(_) => Method::Enable,
            EventPayload::RejectEvent(_) => Method::Reject,
            EventPayload::StackEvent(_) => Method::Stack,
            EventPayload::StatusEvent(_) => Method::Status,
            EventPayload::CashboxRemovedEvent(_) => Method::CashboxRemoved,
            EventPayload::CashboxReplacedEvent(_) => Method::CashboxReplaced,
            EventPayload::DisabledEvent(_) => Method::Disabled,
            EventPayload::FraudAttemptEvent(_) => Method::FraudAttempt,
            EventPayload::NoteClearedFromFrontEvent(_) => Method::NoteClearedFromFront,
            EventPayload::NoteClearedIntoCashboxEvent(_) => Method::NoteClearedIntoCashbox,
            EventPayload::NoteCreditEvent(_) => Method::NoteCredit,
            EventPayload::ReadEvent(_) => Method::Read,
            EventPayload::RejectedEvent(_) => Method::Rejected,
            EventPayload::RejectingEvent(_) => Method::Rejecting,
            EventPayload::ResetEvent(_) => Method::Reset,
            EventPayload::StackedEvent(_) => Method::Stacked,
            EventPayload::StackerFullEvent(_) => Method::StackerFull,
            EventPayload::StackingEvent(_) => Method::Stacking,
            EventPayload::UnsafeJamEvent(_) => Method::UnsafeJam,
        }
    }

    /// Gets the method that the payload belongs to.
    pub fn method(&self) -> (method: Method)
        ensures
            method == self.spec_method(),
    {
        match self {
            Self::Error(_) => Method::Fail,
            Self::DisableEvent(_) => DisableEvent::method(),
            Self::EnableEvent(_) => EnableEvent::method(),
            Self::RejectEvent(_) => RejectEvent::method(),
            Self::StackEvent(_) => StackEvent::method(),
            Self::StatusEvent(_) => StatusEvent::method(),
            Self::CashboxRemovedEvent(_) => CashboxRemovedEvent::method(),
            Self::CashboxReplacedEvent(_) => CashboxReplacedEvent::method(),
            Self::DisabledEvent(_) => DisabledEvent::method(),
            Self::FraudAttemptEvent(_) => FraudAttemptEvent::method(),
            Self::NoteClearedFromFrontEvent(_) => NoteClearedFromFrontEvent::method(),
            Self::NoteClearedIntoCashboxEvent(_) => NoteClearedIntoCashboxEvent::method(),
            Self::NoteCreditEvent(_) => NoteCreditEvent::method(),
            Self::ReadEvent(_) => ReadEvent::method(),
            Self::RejectedEvent(_) => RejectedEvent::method(),
            Self::RejectingEvent(_) => RejectingEvent::method(),
            Self::ResetEvent(_) => ResetEvent::method(),
            Self::StackedEvent(_) => StackedEvent::method(),
            Self::StackerFullEvent(_) => StackerFullEvent::method(),
            Self::StackingEvent(_) => StackingEvent::method(),
            Self::UnsafeJamEvent(_) => UnsafeJamEvent::method(),
        }
    }
}

/// The payload that an event of `method` has before anything is known of it:
/// the event of the method with nothing in it. The failing method has the
/// failure `-1`, an unknown method the failure of its number negated, and a
/// shutdown the payload of disabling.
pub open spec fn spec_default_payload(method: Method) -> EventPayload {
    match method {
        Method::Fail => EventPayload::Error(Error::Generic((-1) as i64)),
        Method::Disable | Method::Shutdown => EventPayload::DisableEvent(DisableEvent),
        Method::Enable => EventPayload::EnableEvent(EnableEvent),
        Method::Reject => EventPayload::RejectEvent(RejectEvent),
        Method::Stack => EventPayload::StackEvent(StackEvent),
        Method::Status => EventPayload::StatusEvent(StatusEvent::spec_default()),
        Method::CashboxRemoved => EventPayload::CashboxRemovedEvent(CashboxRemovedEvent),
        Method::CashboxReplaced => EventPayload::CashboxReplacedEvent(CashboxReplacedEvent),
        Method::Disabled => EventPayload::DisabledEvent(DisabledEvent),
        Method::FraudAttempt => EventPayload::FraudAttemptEvent(FraudAttemptEvent::spec_default()),
        Method::NoteClearedFromFront => EventPayload::NoteClearedFromFrontEvent(NoteClearedFromFrontEvent::spec_default()),
        Method::NoteClearedIntoCashbox => EventPayload::NoteClearedIntoCashboxEvent(NoteClearedIntoCashboxEvent::spec_default()),
        Method::NoteCredit => EventPayload::NoteCreditEvent(NoteCreditEvent::spec_default()),
        Method::Read => EventPayload::ReadEvent(ReadEvent::spec_default()),
        Method::Rejected => EventPayload::RejectedEvent(RejectedEvent),
        Method::Rejecting => EventPayload::RejectingEvent(RejectingEvent),
        Method::Reset => EventPayload::ResetEvent(ResetEvent),
        Method::Stacked => EventPayload::StackedEvent(StackedEvent),
        Method::StackerFull => EventPayload::StackerFullEvent(StackerFullEvent),
        Method::Stacking => EventPayload::StackingEvent(StackingEvent),
        Method::UnsafeJam => EventPayload::UnsafeJamEvent(UnsafeJamEvent),
        Method::Reserved(m) => EventPayload::Error(Error::Generic((-(m as int)) as i64)),
    }
}

/// The payload that a method starts with belongs to that method, but for the
/// failing and the unknown methods, whose payload is a failure, and for a
/// shutdown, whose payload is that of disabling.
pub proof fn lemma_default_payload_method(method: Method)
    ensures
        spec_default_payload(method).spec_method() == match method {
            Method::Shutdown => Method::Disable,
            Method::Reserved(_) => Method::Fail,
            _ => method,
        },
{
}

/// Represents a generic event from a polling response.
#[derive(Clone, Copy, Debug, PartialEq)]
pub struct Event {
    method: Method,
    payload: EventPayload,
}

impl Event {
    /// The method of the event.
    pub closed spec fn spec_method(&self) -> Method {
        self.method
    }

    /// The payload of the event.
    pub closed spec fn spec_payload(&self) -> EventPayload {
        self.payload
    }

    /// The event with the given method and payload.
    pub closed spec fn spec_new(method: Method, payload: EventPayload) -> Self {
        Event { method, payload }
    }

    /// An event has the method and the payload that it was made with.
    pub proof fn lemma_spec_new(method: Method, payload: EventPayload)
        ensures
            Self::spec_new(method, payload).spec_method() == method,
            Self::spec_new(method, payload).spec_payload() == payload,
    {
    }

    /// Creates a new [Event] from the provided `method` and `payload`.
    pub fn new(method: Method, payload: EventPayload) -> (event: Self)
        ensures
            event == Self::spec_new(method, payload),
            event.spec_method() == method,
            event.spec_payload() == payload,
    {
        Self { method, payload }
    }

    /// Gets the method.
    pub fn method(&self) -> (method: Method)
        ensures
            method == self.spec_method(),
    {
        self.method
    }

    /// Gets the method as a `&str`.
    pub fn method_str(&self) -> (s: &str)
        ensures
            s@ == spec_method_str(self.spec_method()),
    {
        self.method.to_str()
    }

    /// Sets the method.
    pub fn set_method(&mut self, method: Method)
        ensures
            final(self).spec_method() == method,
            final(self).spec_payload() == old(self).spec_payload(),
    {
        self.method = method;
    }

    /// Gets a reference to the [EventPayload].
    pub fn payload(&self) -> (payload: &EventPayload)
        ensures
            *payload == self.spec_payload(),
    {
        &self.payload
    }

    /// Sets the [EventPayload].
    pub fn set_payload(&mut self, payload: EventPayload)
        ensures
            final(self).spec_payload() == payload,
            final(self).spec_method() == old(self).spec_method(),
    {
        self.payload = payload
    }
}

impl From<Method> for Event {
    /// Creates the event of a method with the payload that the method starts
    /// with.
    fn from(method: Method) -> (event: Self) {
        let payload = match method {
            Method::Fail => EventPayload::Error(Error::Generic(-1)),
            Method::Disable | Method::Shutdown => {
                EventPayload::DisableEvent(DisableEvent::default())
            },
            Method::Enable => EventPayload::EnableEvent(EnableEvent::default()),
            Method::Reject => EventPayload::RejectEvent(RejectEvent::default()),
            Method::Stack => EventPayload::StackEvent(StackEvent::default()),
            Method::Status => EventPayload::StatusEvent(StatusEvent::default()),
            Method::CashboxRemoved => EventPayload::CashboxRemovedEvent(CashboxRemovedEvent::default()),
            Method::CashboxReplaced => EventPayload::CashboxReplacedEvent(CashboxReplacedEvent::default()),
            Method::Disabled => EventPayload::DisabledEvent(DisabledEvent::default()),
            Method::FraudAttempt => EventPayload::FraudAttemptEvent(FraudAttemptEvent::default()),
            Method::NoteClearedFromFront => EventPayload::NoteClearedFromFrontEvent(NoteClearedFromFrontEvent::default()),
            Method::NoteClearedIntoCashbox => EventPayload::NoteClearedIntoCashboxEvent(NoteClearedIntoCashboxEvent::default()),
            Method::NoteCredit => EventPayload::NoteCreditEvent(NoteCreditEvent::default()),
            Method::Read => EventPayload::ReadEvent(ReadEvent::default()),
            Method::Rejected => EventPayload::RejectedEvent(RejectedEvent::default()),
            Method::Rejecting => EventPayload::RejectingEvent(RejectingEvent::default()),
            Method::Reset => EventPayload::ResetEvent(ResetEvent::default()),
            Method::Stacked => EventPayload::StackedEvent(StackedEvent::default()),
            Method::StackerFull => EventPayload::StackerFullEvent(StackerFullEvent::default()),
            Method::Stacking => EventPayload::StackingEvent(StackingEvent::default()),
            Method::UnsafeJam => EventPayload::UnsafeJamEvent(UnsafeJamEvent::default()),
            Method::Reserved(m) => EventPayload::Error(Error::Generic(-(m as i64))),
        };
        Self { method, payload }
    }
}

impl FromSpecImpl<Method> for Event {
    open spec fn obeys_from_spec() -> bool {
        true
    }

    open spec fn from_spec(method: Method) -> Self {
        Event::spec_new(method, spec_default_payload(method))
    }
}

impl From<DisableEvent> for EventPayload {
    fn from(val: DisableEvent) -> (payload: Self) {
        Self::DisableEvent(val)
    }
}

impl FromSpecImpl<DisableEvent> for EventPayload {
    open spec fn obeys_from_spec() -> bool {
        true
    }

    open spec fn from_spec(val: DisableEvent) -> Self {
        EventPayload::DisableEvent(val)
    }
}

impl TryFrom<EventPayload> for DisableEvent {
    type Error = Error;

    /// Takes the event out of its payload. Fails, with the event found and
    /// the event wanted, where the payload is of another event.
    fn try_from(val: EventPayload) -> (res: Result<Self, Error>) {
        match val {
            EventPayload::DisableEvent(evt) => Ok(evt),
            event => Err(
                Error::InvalidEvent(
                    (ResponseStatus::from(event.method()), ResponseStatus::from(DisableEvent::method())),
                ),
            ),
        }
    }
}

impl TryFromSpecImpl<EventPayload> for DisableEvent {
    open spec fn obeys_try_from_spec() -> bool {
        true
    }

    open spec fn try_from_spec(val: EventPayload) -> Result<Self, Error> {
        match val {
            EventPayload::DisableEvent(evt) => Ok(evt),
            event => Err(
                Error::InvalidEvent(
                    (spec_method_status(event.spec_method()), spec_method_status(Method::Disable)),
                ),
            ),
        }
    }
}

impl From<DisableEvent> for Event {
    fn from(val: DisableEvent) -> (event: Self) {
        Self::new(DisableEvent::method(), EventPayload::DisableEvent(val))
    }
}

impl FromSpecImpl<DisableEvent> for Event {
    open spec fn obeys_from_spec() -> bool {
        true
    }

    open spec fn from_spec(val: DisableEvent) -> Self {
        Event::spec_new(Method::Disable, EventPayload::DisableEvent(val))
    }
}

impl TryFrom<Event> for DisableEvent {
    type Error = Error;

    /// Takes the event out of the payload of a generic event. Fails, with the
    /// event found and the event wanted, where the payload is of another
    /// event.
    fn try_from(val: Event) -> (res: Result<Self, Error>) {
        DisableEvent::try_from(val.payload)
    }
}

impl TryFromSpecImpl<Event> for DisableEvent {
    open spec fn obeys_try_from_spec() -> bool {
        true
    }

    open spec fn try_from_spec(val: Event) -> Result<Self, Error> {
        match val.spec_payload() {
            EventPayload::DisableEvent(evt) => Ok(evt),
            event => Err(
                Error::InvalidEvent(
                    (spec_method_status(event.spec_method()), spec_method_status(Method::Disable)),
                ),
            ),
        }
    }
}

impl From<EnableEvent> for EventPayload {
    fn from(val: EnableEvent) -> (payload: Self) {
        Self::EnableEvent(val)
    }
}

impl FromSpecImpl<EnableEvent> for EventPayload {
    open spec fn obeys_from_spec() -> bool {
        true
    }

    open spec fn from_spec(val: EnableEvent) -> Self {
        EventPayload::EnableEvent(val)
    }
}

impl TryFrom<EventPayload> for EnableEvent {
    type Error = Error;

    /// Takes the event out of its payload. Fails, with the event found and
    /// the event wanted, where the payload is of another event.
    fn try_from(val: EventPayload) -> (res: Result<Self, Error>) {
        match val {
            EventPayload::EnableEvent(evt) => Ok(evt),
            event => Err(
                Error::InvalidEvent(
                    (ResponseStatus::from(event.method()), ResponseStatus::from(EnableEvent::method())),
                ),
            ),
        }
    }
}

impl TryFromSpecImpl<EventPayload> for EnableEvent {
    open spec fn obeys_try_from_spec() -> bool {
        true
    }

    open spec fn try_from_spec(val: EventPayload) -> Result<Self, Error> {
        match val {
            EventPayload::EnableEvent(evt) => Ok(evt),
            event => Err(
                Error::InvalidEvent(
                    (spec_method_status(event.spec_method()), spec_method_status(Method::Enable)),
                ),
            ),
        }
    }
}

impl From<EnableEvent> for Event {
    fn from(val: EnableEvent) -> (event: Self) {
        Self::new(EnableEvent::method(), EventPayload::EnableEvent(val))
    }
}

impl FromSpecImpl<EnableEvent> for Event {
    open spec fn obeys_from_spec() -> bool {
        true
    }

    open spec fn from_spec(val: EnableEvent) -> Self {
        Event::spec_new(Method::Enable, EventPayload::EnableEvent(val))
    }
}

impl TryFrom<Event> for EnableEvent {
    type Error = Error;

    /// Takes the event out of the payload of a generic event. Fails, with the
    /// event found and the event wanted, where the payload is of another
    /// event.
    fn try_from(val: Event) -> (res: Result<Self, Error>) {
        EnableEvent::try_from(val.payload)
    }
}

impl TryFromSpecImpl<Event> for EnableEvent {
    open spec fn obeys_try_from_spec() -> bool {
        true
    }

    open spec fn try_from_spec(val: Event) -> Result<Self, Error> {
        match val.spec_payload() {
            EventPayload::EnableEvent(evt) => Ok(evt),
            event => Err(
                Error::InvalidEvent(
                    (spec_method_status(event.spec_method()), spec_method_status(Method::Enable)),
                ),
            ),
        }
    }
}

impl From<RejectEvent> for EventPayload {
    fn from(val: RejectEvent) -> (payload: Self) {
        Self::RejectEvent(val)
    }
}

impl FromSpecImpl<RejectEvent> for EventPayload {
    open spec fn obeys_from_spec() -> bool {
        true
    }

    open spec fn from_spec(val: RejectEvent) -> Self {
        EventPayload::RejectEvent(val)
    }
}

impl TryFrom<EventPayload> for RejectEvent {
    type Error = Error;

    /// Takes the event out of its payload. Fails, with the event found and
    /// the event wanted, where the payload is of another event.
    fn try_from(val: EventPayload) -> (res: Result<Self, Error>) {
        match val {
            EventPayload::RejectEvent(evt) => Ok(evt),
            event => Err(
                Error::InvalidEvent(
                    (ResponseStatus::from(event.method()), ResponseStatus::from(RejectEvent::method())),
                ),
            ),
        }
    }
}

impl TryFromSpecImpl<EventPayload> for RejectEvent {
    open spec fn obeys_try_from_spec() -> bool {
        true
    }

    open spec fn try_from_spec(val: EventPayload) -> Result<Self, Error> {
        match val {
            EventPayload::RejectEvent(evt) => Ok(evt),
            event => Err(
                Error::InvalidEvent(
                    (spec_method_status(event.spec_method()), spec_method_status(Method::Reject)),
                ),
            ),
        }
    }
}

impl From<RejectEvent> for Event {
    fn from(val: RejectEvent) -> (event: Self) {
        Self::new(RejectEvent::method(), EventPayload::RejectEvent(val))
    }
}

impl FromSpecImpl<RejectEvent> for Event {
    open spec fn obeys_from_spec() -> bool {
        true
    }

    open spec fn from_spec(val: RejectEvent) -> Self {
        Event::spec_new(Method::Reject, EventPayload::RejectEvent(val))
    }
}

impl TryFrom<Event> for RejectEvent {
    type Error = Error;

    /// Takes the event out of the payload of a generic event. Fails, with the
    /// event found and the event wanted, where the payload is of another
    /// event.
    fn try_from(val: Event) -> (res: Result<Self, Error>) {
        RejectEvent::try_from(val.payload)
    }
}

impl TryFromSpecImpl<Event> for RejectEvent {
    open spec fn obeys_try_from_spec() -> bool {
        true
    }

    open spec fn try_from_spec(val: Event) -> Result<Self, Error> {
        match val.spec_payload() {
            EventPayload::RejectEvent(evt) => Ok(evt),
            event => Err(
                Error::InvalidEvent(
                    (spec_method_status(event.spec_method()), spec_method_status(Method::Reject)),
                ),
            ),
        }
    }
}

impl From<StackEvent> for EventPayload {
    fn from(val: StackEvent) -> (payload: Self) {
        Self::StackEvent(val)
    }
}

impl FromSpecImpl<StackEvent> for EventPayload {
    open spec fn obeys_from_spec() -> bool {
        true
    }

    open spec fn from_spec(val: StackEvent) -> Self {
        EventPayload::StackEvent(val)
    }
}

impl TryFrom<EventPayload> for StackEvent {
    type Error = Error;

    /// Takes the event out of its payload. Fails, with the event found and
    /// the event wanted, where the payload is of another event.
    fn try_from(val: EventPayload) -> (res: Result<Self, Error>) {
        match val {
            EventPayload::StackEvent(evt) => Ok(evt),
            event => Err(
                Error::InvalidEvent(
                    (ResponseStatus::from(event.method()), ResponseStatus::from(StackEvent::method())),
                ),
            ),
        }
    }
}

impl TryFromSpecImpl<EventPayload> for StackEvent {
    open spec fn obeys_try_from_spec() -> bool {
        true
    }

    open spec fn try_from_spec(val: EventPayload) -> Result<Self, Error> {
        match val {
            EventPayload::StackEvent(evt) => Ok(evt),
            event => Err(
                Error::InvalidEvent(
                    (spec_method_status(event.spec_method()), spec_method_status(Method::Stack)),
                ),
            ),
        }
    }
}

impl From<StackEvent> for Event {
    fn from(val: StackEvent) -> (event: Self) {
        Self::new(StackEvent::method(), EventPayload::StackEvent(val))
    }
}

impl FromSpecImpl<StackEvent> for Event {
    open spec fn obeys_from_spec() -> bool {
        true
    }

    open spec fn from_spec(val: StackEvent) -> Self {
        Event::spec_new(Method::Stack, EventPayload::StackEvent(val))
    }
}

impl TryFrom<Event> for StackEvent {
    type Error = Error;

    /// Takes the event out of the payload of a generic event. Fails, with the
    /// event found and the event wanted, where the payload is of another
    /// event.
    fn try_from(val: Event) -> (res: Result<Self, Error>) {
        StackEvent::try_from(val.payload)
    }
}

impl TryFromSpecImpl<Event> for StackEvent {
    open spec fn obeys_try_from_spec() -> bool {
        true
    }

    open spec fn try_from_spec(val: Event) -> Result<Self, Error> {
        match val.spec_payload() {
            EventPayload::StackEvent(evt) => Ok(evt),
            event => Err(
                Error::InvalidEvent(
                    (spec_method_status(event.spec_method()), spec_method_status(Method::Stack)),
                ),
            ),
        }
    }
}

impl From<StatusEvent> for EventPayload {
    fn from(val: StatusEvent) -> (payload: Self) {
        Self::StatusEvent(val)
    }
}

impl FromSpecImpl<StatusEvent> for EventPayload {
    open spec fn obeys_from_spec() -> bool {
        true
    }

    open spec fn from_spec(val: StatusEvent) -> Self {
        EventPayload::StatusEvent(val)
    }
}

impl TryFrom<EventPayload> for StatusEvent {
    type Error = Error;

    /// Takes the event out of its payload. Fails, with the event found and
    /// the event wanted, where the payload is of another event.
    fn try_from(val: EventPayload) -> (res: Result<Self, Error>) {
        match val {
            EventPayload::StatusEvent(evt) => Ok(evt),
            event => Err(
                Error::InvalidEvent(
                    (ResponseStatus::from(event.method()), ResponseStatus::from(StatusEvent::method())),
                ),
            ),
        }
    }
}

impl TryFromSpecImpl<EventPayload> for StatusEvent {
    open spec fn obeys_try_from_spec() -> bool {
        true
    }

    open spec fn try_from_spec(val: EventPayload) -> Result<Self, Error> {
        match val {
            EventPayload::StatusEvent(evt) => Ok(evt),
            event => Err(
                Error::InvalidEvent(
                    (spec_method_status(event.spec_method()), spec_method_status(Method::Status)),
                ),
            ),
        }
    }
}

impl From<StatusEvent> for Event {
    fn from(val: StatusEvent) -> (event: Self) {
        Self::new(StatusEvent::method(), EventPayload::StatusEvent(val))
    }
}

impl FromSpecImpl<StatusEvent> for Event {
    open spec fn obeys_from_spec() -> bool {
        true
    }

    open spec fn from_spec(val: StatusEvent) -> Self {
        Event::spec_new(Method::Status, EventPayload::StatusEvent(val))
    }
}

impl TryFrom<Event> for StatusEvent {
    type Error = Error;

    /// Takes the event out of the payload of a generic event. Fails, with the
    /// event found and the event wanted, where the payload is of another
    /// event.
    fn try_from(val: Event) -> (res: Result<Self, Error>) {
        StatusEvent::try_from(val.payload)
    }
}

impl TryFromSpecImpl<Event> for StatusEvent {
    open spec fn obeys_try_from_spec() -> bool {
        true
    }

    open spec fn try_from_spec(val: Event) -> Result<Self, Error> {
        match val.spec_payload() {
            EventPayload::StatusEvent(evt) => Ok(evt),
            event => Err(
                Error::InvalidEvent(
                    (spec_method_status(event.spec_method()), spec_method_status(Method::Status)),
                ),
            ),
        }
    }
}

impl From<CashboxRemovedEvent> for EventPayload {
    fn from(val: CashboxRemovedEvent) -> (payload: Self) {
        Self::CashboxRemovedEvent(val)
    }
}

impl FromSpecImpl<CashboxRemovedEvent> for EventPayload {
    open spec fn obeys_from_spec() -> bool {
        true
    }

    open spec fn from_spec(val: CashboxRemovedEvent) -> Self {
        EventPayload::CashboxRemovedEvent(val)
    }
}

impl TryFrom<EventPayload> for CashboxRemovedEvent {
    type Error = Error;

    /// Takes the event out of its payload. Fails, with the event found and
    /// the event wanted, where the payload is of another event.
    fn try_from(val: EventPayload) -> (res: Result<Self, Error>) {
        match val {
            EventPayload::CashboxRemovedEvent(evt) => Ok(evt),
            event => Err(
                Error::InvalidEvent(
                    (ResponseStatus::from(event.method()), ResponseStatus::from(CashboxRemovedEvent::method())),
                ),
            ),
        }
    }
}

impl TryFromSpecImpl<EventPayload> for CashboxRemovedEvent {
    open spec fn obeys_try_from_spec() -> bool {
        true
    }

    open spec fn try_from_spec(val: EventPayload) -> Result<Self, Error> {
        match val {
            EventPayload::CashboxRemovedEvent(evt) => Ok(evt),
            event => Err(
                Error::InvalidEvent(
                    (spec_method_status(event.spec_method()), spec_method_status(Method::CashboxRemoved)),
                ),
            ),
        }
    }
}

impl From<CashboxRemovedEvent> for Event {
    fn from(val: CashboxRemovedEvent) -> (event: Self) {
        Self::new(CashboxRemovedEvent::method(), EventPayload::CashboxRemovedEvent(val))
    }
}

impl FromSpecImpl<CashboxRemovedEvent> for Event {
    open spec fn obeys_from_spec() -> bool {
        true
    }

    open spec fn from_spec(val: CashboxRemovedEvent) -> Self {
        Event::spec_new(Method::CashboxRemoved, EventPayload::CashboxRemovedEvent(val))
    }
}

impl TryFrom<Event> for CashboxRemovedEvent {
    type Error = Error;

    /// Takes the event out of the payload of a generic event. Fails, with the
    /// event found and the event wanted, where the payload is of another
    /// event.
    fn try_from(val: Event) -> (res: Result<Self, Error>) {
        CashboxRemovedEvent::try_from(val.payload)
    }
}

impl TryFromSpecImpl<Event> for CashboxRemovedEvent {
    open spec fn obeys_try_from_spec() -> bool {
        true
    }

    open spec fn try_from_spec(val: Event) -> Result<Self, Error> {
        match val.spec_payload() {
            EventPayload::CashboxRemovedEvent(evt) => Ok(evt),
            event => Err(
                Error::InvalidEvent(
                    (spec_method_status(event.spec_method()), spec_method_status(Method::CashboxRemoved)),
                ),
            ),
        }
    }
}

impl From<CashboxReplacedEvent> for EventPayload {
    fn from(val: CashboxReplacedEvent) -> (payload: Self) {
        Self::CashboxReplacedEvent(val)
    }
}

impl FromSpecImpl<CashboxReplacedEvent> for EventPayload {
    open spec fn obeys_from_spec() -> bool {
        true
    }

    open spec fn from_spec(val: CashboxReplacedEvent) -> Self {
        EventPayload::CashboxReplacedEvent(val)
    }
}

impl TryFrom<EventPayload> for CashboxReplacedEvent {
    type Error = Error;

    /// Takes the event out of its payload. Fails, with the event found and
    /// the event wanted, where the payload is of another event.
    fn try_from(val: EventPayload) -> (res: Result<Self, Error>) {
        match val {
            EventPayload::CashboxReplacedEvent(evt) => Ok(evt),
            event => Err(
                Error::InvalidEvent(
                    (ResponseStatus::from(event.method()), ResponseStatus::from(CashboxReplacedEvent::method())),
                ),
            ),
        }
    }
}

impl TryFromSpecImpl<EventPayload> for CashboxReplacedEvent {
    open spec fn obeys_try_from_spec() -> bool {
        true
    }

    open spec fn try_from_spec(val: EventPayload) -> Result<Self, Error> {
        match val {
            EventPayload::CashboxReplacedEvent(evt) => Ok(evt),
            event => Err(
                Error::InvalidEvent(
                    (spec_method_status(event.spec_method()), spec_method_status(Method::CashboxReplaced)),
                ),
            ),
        }
    }
}

impl From<CashboxReplacedEvent> for Event {
    fn from(val: CashboxReplacedEvent) -> (event: Self) {
        Self::new(CashboxReplacedEvent::method(), EventPayload::CashboxReplacedEvent(val))
    }
}

impl FromSpecImpl<CashboxReplacedEvent> for Event {
    open spec fn obeys_from_spec() -> bool {
        true
    }

    open spec fn from_spec(val: CashboxReplacedEvent) -> Self {
        Event::spec_new(Method::CashboxReplaced, EventPayload::CashboxReplacedEvent(val))
    }
}

impl TryFrom<Event> for CashboxReplacedEvent {
    type Error = Error;

    /// Takes the event out of the payload of a generic event. Fails, with the
    /// event found and the event wanted, where the payload is of another
    /// event.
    fn try_from(val: Event) -> (res: Result<Self, Error>) {
        CashboxReplacedEvent::try_from(val.payload)
    }
}

impl TryFromSpecImpl<Event> for CashboxReplacedEvent {
    open spec fn obeys_try_from_spec() -> bool {
        true
    }

    open spec fn try_from_spec(val: Event) -> Result<Self, Error> {
        match val.spec_payload() {
            EventPayload::CashboxReplacedEvent(evt) => Ok(evt),
            event => Err(
                Error::InvalidEvent(
                    (spec_method_status(event.spec_method()), spec_method_status(Method::CashboxReplaced)),
                ),
            ),
        }
    }
}

impl From<DisabledEvent> for EventPayload {
    fn from(val: DisabledEvent) -> (payload: Self) {
        Self::DisabledEvent(val)
    }
}

impl FromSpecImpl<DisabledEvent> for EventPayload {
    open spec fn obeys_from_spec() -> bool {
        true
    }

    open spec fn from_spec(val: DisabledEvent) -> Self {
        EventPayload::DisabledEvent(val)
    }
}

impl TryFrom<EventPayload> for DisabledEvent {
    type Error = Error;

    /// Takes the event out of its payload. Fails, with the event found and
    /// the event wanted, where the payload is of another event.
    fn try_from(val: EventPayload) -> (res: Result<Self, Error>) {
        match val {
            EventPayload::DisabledEvent(evt) => Ok(evt),
            event => Err(
                Error::InvalidEvent(
                    (ResponseStatus::from(event.method()), ResponseStatus::from(DisabledEvent::method())),
                ),
            ),
        }
    }
}

impl TryFromSpecImpl<EventPayload> for DisabledEvent {
    open spec fn obeys_try_from_spec() -> bool {
        true
    }

    open spec fn try_from_spec(val: EventPayload) -> Result<Self, Error> {
        match val {
            EventPayload::DisabledEvent(evt) => Ok(evt),
            event => Err(
                Error::InvalidEvent(
                    (spec_method_status(event.spec_method()), spec_method_status(Method::Disabled)),
                ),
            ),
        }
    }
}

impl From<DisabledEvent> for Event {
    fn from(val: DisabledEvent) -> (event: Self) {
        Self::new(DisabledEvent::method(), EventPayload::DisabledEvent(val))
    }
}

impl FromSpecImpl<DisabledEvent> for Event {
    open spec fn obeys_from_spec() -> bool {
        true
    }

    open spec fn from_spec(val: DisabledEvent) -> Self {
        Event::spec_new(Method::Disabled, EventPayload::DisabledEvent(val))
    }
}

impl TryFrom<Event> for DisabledEvent {
    type Error = Error;

    /// Takes the event out of the payload of a generic event. Fails, with the
    /// event found and the event wanted, where the payload is of another
    /// event.
    fn try_from(val: Event) -> (res: Result<Self, Error>) {
        DisabledEvent::try_from(val.payload)
    }
}

impl TryFromSpecImpl<Event> for DisabledEvent {
    open spec fn obeys_try_from_spec() -> bool {
        true
    }

    open spec fn try_from_spec(val: Event) -> Result<Self, Error> {
        match val.spec_payload() {
            EventPayload::DisabledEvent(evt) => Ok(evt),
            event => Err(
                Error::InvalidEvent(
                    (spec_method_status(event.spec_method()), spec_method_status(Method::Disabled)),
                ),
            ),
        }
    }
}

impl From<FraudAttemptEvent> for EventPayload {
    fn from(val: FraudAttemptEvent) -> (payload: Self) {
        Self::FraudAttemptEvent(val)
    }
}

impl FromSpecImpl<FraudAttemptEvent> for EventPayload {
    open spec fn obeys_from_spec() -> bool {
        true
    }

    open spec fn from_spec(val: FraudAttemptEvent) -> Self {
        EventPayload::FraudAttemptEvent(val)
    }
}

impl TryFrom<EventPayload> for FraudAttemptEvent {
    type Error = Error;

    /// Takes the event out of its payload. Fails, with the event found and
    /// the event wanted, where the payload is of another event.
    fn try_from(val: EventPayload) -> (res: Result<Self, Error>) {
        match val {
            EventPayload::FraudAttemptEvent(evt) => Ok(evt),
            event => Err(
                Error::InvalidEvent(
                    (ResponseStatus::from(event.method()), ResponseStatus::from(FraudAttemptEvent::method())),
                ),
            ),
        }
    }
}

impl TryFromSpecImpl<EventPayload> for FraudAttemptEvent {
    open spec fn obeys_try_from_spec() -> bool {
        true
    }

    open spec fn try_from_spec(val: EventPayload) -> Result<Self, Error> {
        match val {
            EventPayload::FraudAttemptEvent(evt) => Ok(evt),
            event => Err(
                Error::InvalidEvent(
                    (spec_method_status(event.spec_method()), spec_method_status(Method::FraudAttempt)),
                ),
            ),
        }
    }
}

impl From<FraudAttemptEvent> for Event {
    fn from(val: FraudAttemptEvent) -> (event: Self) {
        Self::new(FraudAttemptEvent::method(), EventPayload::FraudAttemptEvent(val))
    }
}

impl FromSpecImpl<FraudAttemptEvent> for Event {
    open spec fn obeys_from_spec() -> bool {
        true
    }

    open spec fn from_spec(val: FraudAttemptEvent) -> Self {
        Event::spec_new(Method::FraudAttempt, EventPayload::FraudAttemptEvent(val))
    }
}

impl TryFrom<Event> for FraudAttemptEvent {
    type Error = Error;

    /// Takes the event out of the payload of a generic event. Fails, with the
    /// event found and the event wanted, where the payload is of another
    /// event.
    fn try_from(val: Event) -> (res: Result<Self, Error>) {
        FraudAttemptEvent::try_from(val.payload)
    }
}

impl TryFromSpecImpl<Event> for FraudAttemptEvent {
    open spec fn obeys_try_from_spec() -> bool {
        true
    }

    open spec fn try_from_spec(val: Event) -> Result<Self, Error> {
        match val.spec_payload() {
            EventPayload::FraudAttemptEvent(evt) => Ok(evt),
            event => Err(
                Error::InvalidEvent(
                    (spec_method_status(event.spec_method()), spec_method_status(Method::FraudAttempt)),
                ),
            ),
        }
    }
}

impl From<NoteClearedFromFrontEvent> for EventPayload {
    fn from(val: NoteClearedFromFrontEvent) -> (payload: Self) {
        Self::NoteClearedFromFrontEvent(val)
    }
}

impl FromSpecImpl<NoteClearedFromFrontEvent> for EventPayload {
    open spec fn obeys_from_spec() -> bool {
        true
    }

    open spec fn from_spec(val: NoteClearedFromFrontEvent) -> Self {
        EventPayload::NoteClearedFromFrontEvent(val)
    }
}

impl TryFrom<EventPayload> for NoteClearedFromFrontEvent {
    type Error = Error;

    /// Takes the event out of its payload. Fails, with the event found and
    /// the event wanted, where the payload is of another event.
    fn try_from(val: EventPayload) -> (res: Result<Self, Error>) {
        match val {
            EventPayload::NoteClearedFromFrontEvent(evt) => Ok(evt),
            event => Err(
                Error::InvalidEvent(
                    (ResponseStatus::from(event.method()), ResponseStatus::from(NoteClearedFromFrontEvent::method())),
                ),
            ),
        }
    }
}

impl TryFromSpecImpl<EventPayload> for NoteClearedFromFrontEvent {
    open spec fn obeys_try_from_spec() -> bool {
        true
    }

    open spec fn try_from_spec(val: EventPayload) -> Result<Self, Error> {
        match val {
            EventPayload::NoteClearedFromFrontEvent(evt) => Ok(evt),
            event => Err(
                Error::InvalidEvent(
                    (spec_method_status(event.spec_method()), spec_method_status(Method::NoteClearedFromFront)),
                ),
            ),
        }
    }
}

impl From<NoteClearedFromFrontEvent> for Event {
    fn from(val: NoteClearedFromFrontEvent) -> (event: Self) {
        Self::new(NoteClearedFromFrontEvent::method(), EventPayload::NoteClearedFromFrontEvent(val))
    }
}

impl FromSpecImpl<NoteClearedFromFrontEvent> for Event {
    open spec fn obeys_from_spec() -> bool {
        true
    }

    open spec fn from_spec(val: NoteClearedFromFrontEvent) -> Self {
        Event::spec_new(Method::NoteClearedFromFront, EventPayload::NoteClearedFromFrontEvent(val))
    }
}

impl TryFrom<Event> for NoteClearedFromFrontEvent {
    type Error = Error;

    /// Takes the event out of the payload of a generic event. Fails, with the
    /// event found and the event wanted, where the payload is of another
    /// event.
    fn try_from(val: Event) -> (res: Result<Self, Error>) {
        NoteClearedFromFrontEvent::try_from(val.payload)
    }
}

impl TryFromSpecImpl<Event> for NoteClearedFromFrontEvent {
    open spec fn obeys_try_from_spec() -> bool {
        true
    }

    open spec fn try_from_spec(val: Event) -> Result<Self, Error> {
        match val.spec_payload() {
            EventPayload::NoteClearedFromFrontEvent(evt) => Ok(evt),
            event => Err(
                Error::InvalidEvent(
                    (spec_method_status(event.spec_method()), spec_method_status(Method::NoteClearedFromFront)),
                ),
            ),
        }
    }
}

impl From<NoteClearedIntoCashboxEvent> for EventPayload {
    fn from(val: NoteClearedIntoCashboxEvent) -> (payload: Self) {
        Self::NoteClearedIntoCashboxEvent(val)
    }
}

impl FromSpecImpl<NoteClearedIntoCashboxEvent> for EventPayload {
    open spec fn obeys_from_spec() -> bool {
        true
    }

    open spec fn from_spec(val: NoteClearedIntoCashboxEvent) -> Self {
        EventPayload::NoteClearedIntoCashboxEvent(val)
    }
}

impl TryFrom<EventPayload> for NoteClearedIntoCashboxEvent {
    type Error = Error;

    /// Takes the event out of its payload. Fails, with the event found and
    /// the event wanted, where the payload is of another event.
    fn try_from(val: EventPayload) -> (res: Result<Self, Error>) {
        match val {
            EventPayload::NoteClearedIntoCashboxEvent(evt) => Ok(evt),
            event => Err(
                Error::InvalidEvent(
                    (ResponseStatus::from(event.method()), ResponseStatus::from(NoteClearedIntoCashboxEvent::method())),
                ),
            ),
        }
    }
}

impl TryFromSpecImpl<EventPayload> for NoteClearedIntoCashboxEvent {
    open spec fn obeys_try_from_spec() -> bool {
        true
    }

    open spec fn try_from_spec(val: EventPayload) -> Result<Self, Error> {
        match val {
            EventPayload::NoteClearedIntoCashboxEvent(evt) => Ok(evt),
            event => Err(
                Error::InvalidEvent(
                    (spec_method_status(event.spec_method()), spec_method_status(Method::NoteClearedIntoCashbox)),
                ),
            ),
        }
    }
}

impl From<NoteClearedIntoCashboxEvent> for Event {
    fn from(val: NoteClearedIntoCashboxEvent) -> (event: Self) {
        Self::new(NoteClearedIntoCashboxEvent::method(), EventPayload::NoteClearedIntoCashboxEvent(val))
    }
}

impl FromSpecImpl<NoteClearedIntoCashboxEvent> for Event {
    open spec fn obeys_from_spec() -> bool {
        true
    }

    open spec fn from_spec(val: NoteClearedIntoCashboxEvent) -> Self {
        Event::spec_new(Method::NoteClearedIntoCashbox, EventPayload::NoteClearedIntoCashboxEvent(val))
    }
}

impl TryFrom<Event> for NoteClearedIntoCashboxEvent {
    type Error = Error;

    /// Takes the event out of the payload of a generic event. Fails, with the
    /// event found and the event wanted, where the payload is of another
    /// event.
    fn try_from(val: Event) -> (res: Result<Self, Error>) {
        NoteClearedIntoCashboxEvent::try_from(val.payload)
    }
}

impl TryFromSpecImpl<Event> for NoteClearedIntoCashboxEvent {
    open spec fn obeys_try_from_spec() -> bool {
        true
    }

    open spec fn try_from_spec(val: Event) -> Result<Self, Error> {
        match val.spec_payload() {
            EventPayload::NoteClearedIntoCashboxEvent(evt) => Ok(evt),
            event => Err(
                Error::InvalidEvent(
                    (spec_method_status(event.spec_method()), spec_method_status(Method::NoteClearedIntoCashbox)),
                ),
            ),
        }
    }
}

impl From<NoteCreditEvent> for EventPayload {
    fn from(val: NoteCreditEvent) -> (payload: Self) {
        Self::NoteCreditEvent(val)
    }
}

impl FromSpecImpl<NoteCreditEvent> for EventPayload {
    open spec fn obeys_from_spec() -> bool {
        true
    }

    open spec fn from_spec(val: NoteCreditEvent) -> Self {
        EventPayload::NoteCreditEvent(val)
    }
}

impl TryFrom<EventPayload> for NoteCreditEvent {
    type Error = Error;

    /// Takes the event out of its payload. Fails, with the event found and
    /// the event wanted, where the payload is of another event.
    fn try_from(val: EventPayload) -> (res: Result<Self, Error>) {
        match val {
            EventPayload::NoteCreditEvent(evt) => Ok(evt),
            event => Err(
                Error::InvalidEvent(
                    (ResponseStatus::from(event.method()), ResponseStatus::from(NoteCreditEvent::method())),
                ),
            ),
        }
    }
}

impl TryFromSpecImpl<EventPayload> for NoteCreditEvent {
    open spec fn obeys_try_from_spec() -> bool {
        true
    }

    open spec fn try_from_spec(val: EventPayload) -> Result<Self, Error> {
        match val {
            EventPayload::NoteCreditEvent(evt) => Ok(evt),
            event => Err(
                Error::InvalidEvent(
                    (spec_method_status(event.spec_method()), spec_method_status(Method::NoteCredit)),
                ),
            ),
        }
    }
}

impl From<NoteCreditEvent> for Event {
    fn from(val: NoteCreditEvent) -> (event: Self) {
        Self::new(NoteCreditEvent::method(), EventPayload::NoteCreditEvent(val))
    }
}

impl FromSpecImpl<NoteCreditEvent> for Event {
    open spec fn obeys_from_spec() -> bool {
        true
    }

    open spec fn from_spec(val: NoteCreditEvent) -> Self {
        Event::spec_new(Method::NoteCredit, EventPayload::NoteCreditEvent(val))
    }
}

impl TryFrom<Event> for NoteCreditEvent {
    type Error = Error;

    /// Takes the event out of the payload of a generic event. Fails, with the
    /// event found and the event wanted, where the payload is of another
    /// event.
    fn try_from(val: Event) -> (res: Result<Self, Error>) {
        NoteCreditEvent::try_from(val.payload)
    }
}

impl TryFromSpecImpl<Event> for NoteCreditEvent {
    open spec fn obeys_try_from_spec() -> bool {
        true
    }

    open spec fn try_from_spec(val: Event) -> Result<Self, Error> {
        match val.spec_payload() {
            EventPayload::NoteCreditEvent(evt) => Ok(evt),
            event => Err(
                Error::InvalidEvent(
                    (spec_method_status(event.spec_method()), spec_method_status(Method::NoteCredit)),
                ),
            ),
        }
    }
}

impl From<ReadEvent> for EventPayload {
    fn from(val: ReadEvent) -> (payload: Self) {
        Self::ReadEvent(val)
    }
}

impl FromSpecImpl<ReadEvent> for EventPayload {
    open spec fn obeys_from_spec() -> bool {
        true
    }

    open spec fn from_spec(val: ReadEvent) -> Self {
        EventPayload::ReadEvent(val)
    }
}

impl TryFrom<EventPayload> for ReadEvent {
    type Error = Error;

    /// Takes the event out of its payload. Fails, with the event found and
    /// the event wanted, where the payload is of another event.
    fn try_from(val: EventPayload) -> (res: Result<Self, Error>) {
        match val {
            EventPayload::ReadEvent(evt) => Ok(evt),
            event => Err(
                Error::InvalidEvent(
                    (ResponseStatus::from(event.method()), ResponseStatus::from(ReadEvent::method())),
                ),
            ),
        }
    }
}

impl TryFromSpecImpl<EventPayload> for ReadEvent {
    open spec fn obeys_try_from_spec() -> bool {
        true
    }

    open spec fn try_from_spec(val: EventPayload) -> Result<Self, Error> {
        match val {
            EventPayload::ReadEvent(evt) => Ok(evt),
            event => Err(
                Error::InvalidEvent(
                    (spec_method_status(event.spec_method()), spec_method_status(Method::Read)),
                ),
            ),
        }
    }
}

impl From<ReadEvent> for Event {
    fn from(val: ReadEvent) -> (event: Self) {
        Self::new(ReadEvent::method(), EventPayload::ReadEvent(val))
    }
}

impl FromSpecImpl<ReadEvent> for Event {
    open spec fn obeys_from_spec() -> bool {
        true
    }

    open spec fn from_spec(val: ReadEvent) -> Self {
        Event::spec_new(Method::Read, EventPayload::ReadEvent(val))
    }
}

impl TryFrom<Event> for ReadEvent {
    type Error = Error;

    /// Takes the event out of the payload of a generic event. Fails, with the
    /// event found and the event wanted, where the payload is of another
    /// event.
    fn try_from(val: Event) -> (res: Result<Self, Error>) {
        ReadEvent::try_from(val.payload)
    }
}

impl TryFromSpecImpl<Event> for ReadEvent {
    open spec fn obeys_try_from_spec() -> bool {
        true
    }

    open spec fn try_from_spec(val: Event) -> Result<Self, Error> {
        match val.spec_payload() {
            EventPayload::ReadEvent(evt) => Ok(evt),
            event => Err(
                Error::InvalidEvent(
                    (spec_method_status(event.spec_method()), spec_method_status(Method::Read)),
                ),
            ),
        }
    }
}

impl From<RejectedEvent> for EventPayload {
    fn from(val: RejectedEvent) -> (payload: Self) {
        Self::RejectedEvent(val)
    }
}

impl FromSpecImpl<RejectedEvent> for EventPayload {
    open spec fn obeys_from_spec() -> bool {
        true
    }

    open spec fn from_spec(val: RejectedEvent) -> Self {
        EventPayload::RejectedEvent(val)
    }
}

impl TryFrom<EventPayload> for RejectedEvent {
    type Error = Error;

    /// Takes the event out of its payload. Fails, with the event found and
    /// the event wanted, where the payload is of another event.
    fn try_from(val: EventPayload) -> (res: Result<Self, Error>) {
        match val {
            EventPayload::RejectedEvent(evt) => Ok(evt),
            event => Err(
                Error::InvalidEvent(
                    (ResponseStatus::from(event.method()), ResponseStatus::from(RejectedEvent::method())),
                ),
            ),
        }
    }
}

impl TryFromSpecImpl<EventPayload> for RejectedEvent {
    open spec fn obeys_try_from_spec() -> bool {
        true
    }

    open spec fn try_from_spec(val: EventPayload) -> Result<Self, Error> {
        match val {
            EventPayload::RejectedEvent(evt) => Ok(evt),
            event => Err(
                Error::InvalidEvent(
                    (spec_method_status(event.spec_method()), spec_method_status(Method::Rejected)),
                ),
            ),
        }
    }
}

impl From<RejectedEvent> for Event {
    fn from(val: RejectedEvent) -> (event: Self) {
        Self::new(RejectedEvent::method(), EventPayload::RejectedEvent(val))
    }
}

impl FromSpecImpl<RejectedEvent> for Event {
    open spec fn obeys_from_spec() -> bool {
        true
    }

    open spec fn from_spec(val: RejectedEvent) -> Self {
        Event::spec_new(Method::Rejected, EventPayload::RejectedEvent(val))
    }
}

impl TryFrom<Event> for RejectedEvent {
    type Error = Error;

    /// Takes the event out of the payload of a generic event. Fails, with the
    /// event found and the event wanted, where the payload is of another
    /// event.
    fn try_from(val: Event) -> (res: Result<Self, Error>) {
        RejectedEvent::try_from(val.payload)
    }
}

impl TryFromSpecImpl<Event> for RejectedEvent {
    open spec fn obeys_try_from_spec() -> bool {
        true
    }

    open spec fn try_from_spec(val: Event) -> Result<Self, Error> {
        match val.spec_payload() {
            EventPayload::RejectedEvent(evt) => Ok(evt),
            event => Err(
                Error::InvalidEvent(
                    (spec_method_status(event.spec_method()), spec_method_status(Method::Rejected)),
                ),
            ),
        }
    }
}

impl From<RejectingEvent> for EventPayload {
    fn from(val: RejectingEvent) -> (payload: Self) {
        Self::RejectingEvent(val)
    }
}

impl FromSpecImpl<RejectingEvent> for EventPayload {
    open spec fn obeys_from_spec() -> bool {
        true
    }

    open spec fn from_spec(val: RejectingEvent) -> Self {
        EventPayload::RejectingEvent(val)
    }
}

impl TryFrom<EventPayload> for RejectingEvent {
    type Error = Error;

    /// Takes the event out of its payload. Fails, with the event found and
    /// the event wanted, where the payload is of another event.
    fn try_from(val: EventPayload) -> (res: Result<Self, Error>) {
        match val {
            EventPayload::RejectingEvent(evt) => Ok(evt),
            event => Err(
                Error::InvalidEvent(
                    (ResponseStatus::from(event.method()), ResponseStatus::from(RejectingEvent::method())),
                ),
            ),
        }
    }
}

impl TryFromSpecImpl<EventPayload> for RejectingEvent {
    open spec fn obeys_try_from_spec() -> bool {
        true
    }

    open spec fn try_from_spec(val: EventPayload) -> Result<Self, Error> {
        match val {
            EventPayload::RejectingEvent(evt) => Ok(evt),
            event => Err(
                Error::InvalidEvent(
                    (spec_method_status(event.spec_method()), spec_method_status(Method::Rejecting)),
                ),
            ),
        }
    }
}

impl From<RejectingEvent> for Event {
    fn from(val: RejectingEvent) -> (event: Self) {
        Self::new(RejectingEvent::method(), EventPayload::RejectingEvent(val))
    }
}

impl FromSpecImpl<RejectingEvent> for Event {
    open spec fn obeys_from_spec() -> bool {
        true
    }

    open spec fn from_spec(val: RejectingEvent) -> Self {
        Event::spec_new(Method::Rejecting, EventPayload::RejectingEvent(val))
    }
}

impl TryFrom<Event> for RejectingEvent {
    type Error = Error;

    /// Takes the event out of the payload of a generic event. Fails, with the
    /// event found and the event wanted, where the payload is of another
    /// event.
    fn try_from(val: Event) -> (res: Result<Self, Error>) {
        RejectingEvent::try_from(val.payload)
    }
}

impl TryFromSpecImpl<Event> for RejectingEvent {
    open spec fn obeys_try_from_spec() -> bool {
        true
    }

    open spec fn try_from_spec(val: Event) -> Result<Self, Error> {
        match val.spec_payload() {
            EventPayload::RejectingEvent(evt) => Ok(evt),
            event => Err(
                Error::InvalidEvent(
                    (spec_method_status(event.spec_method()), spec_method_status(Method::Rejecting)),
                ),
            ),
        }
    }
}

impl From<ResetEvent> for EventPayload {
    fn from(val: ResetEvent) -> (payload: Self) {
        Self::ResetEvent(val)
    }
}

impl FromSpecImpl<ResetEvent> for EventPayload {
    open spec fn obeys_from_spec() -> bool {
        true
    }

    open spec fn from_spec(val: ResetEvent) -> Self {
        EventPayload::ResetEvent(val)
    }
}

impl TryFrom<EventPayload> for ResetEvent {
    type Error = Error;

    /// Takes the event out of its payload. Fails, with the event found and
    /// the event wanted, where the payload is of another event.
    fn try_from(val: EventPayload) -> (res: Result<Self, Error>) {
        match val {
            EventPayload::ResetEvent(evt) => Ok(evt),
            event => Err(
                Error::InvalidEvent(
                    (ResponseStatus::from(event.method()), ResponseStatus::from(ResetEvent::method())),
                ),
            ),
        }
    }
}

impl TryFromSpecImpl<EventPayload> for ResetEvent {
    open spec fn obeys_try_from_spec() -> bool {
        true
    }

    open spec fn try_from_spec(val: EventPayload) -> Result<Self, Error> {
        match val {
            EventPayload::ResetEvent(evt) => Ok(evt),
            event => Err(
                Error::InvalidEvent(
                    (spec_method_status(event.spec_method()), spec_method_status(Method::Reset)),
                ),
            ),
        }
    }
}

impl From<ResetEvent> for Event {
    fn from(val: ResetEvent) -> (event: Self) {
        Self::new(ResetEvent::method(), EventPayload::ResetEvent(val))
    }
}

impl FromSpecImpl<ResetEvent> for Event {
    open spec fn obeys_from_spec() -> bool {
        true
    }

    open spec fn from_spec(val: ResetEvent) -> Self {
        Event::spec_new(Method::Reset, EventPayload::ResetEvent(val))
    }
}

impl TryFrom<Event> for ResetEvent {
    type Error = Error;

    /// Takes the event out of the payload of a generic event. Fails, with the
    /// event found and the event wanted, where the payload is of another
    /// event.
    fn try_from(val: Event) -> (res: Result<Self, Error>) {
        ResetEvent::try_from(val.payload)
    }
}

impl TryFromSpecImpl<Event> for ResetEvent {
    open spec fn obeys_try_from_spec() -> bool {
        true
    }

    open spec fn try_from_spec(val: Event) -> Result<Self, Error> {
        match val.spec_payload() {
            EventPayload::ResetEvent(evt) => Ok(evt),
            event => Err(
                Error::InvalidEvent(
                    (spec_method_status(event.spec_method()), spec_method_status(Method::Reset)),
                ),
            ),
        }
    }
}

impl From<StackedEvent> for EventPayload {
    fn from(val: StackedEvent) -> (payload: Self) {
        Self::StackedEvent(val)
    }
}

impl FromSpecImpl<StackedEvent> for EventPayload {
    open spec fn obeys_from_spec() -> bool {
        true
    }

    open spec fn from_spec(val: StackedEvent) -> Self {
        EventPayload::StackedEvent(val)
    }
}

impl TryFrom<EventPayload> for StackedEvent {
    type Error = Error;

    /// Takes the event out of its payload. Fails, with the event found and
    /// the event wanted, where the payload is of another event.
    fn try_from(val: EventPayload) -> (res: Result<Self, Error>) {
        match val {
            EventPayload::StackedEvent(evt) => Ok(evt),
            event => Err(
                Error::InvalidEvent(
                    (ResponseStatus::from(event.method()), ResponseStatus::from(StackedEvent::method())),
                ),
            ),
        }
    }
}

impl TryFromSpecImpl<EventPayload> for StackedEvent {
    open spec fn obeys_try_from_spec() -> bool {
        true
    }

    open spec fn try_from_spec(val: EventPayload) -> Result<Self, Error> {
        match val {
            EventPayload::StackedEvent(evt) => Ok(evt),
            event => Err(
                Error::InvalidEvent(
                    (spec_method_status(event.spec_method()), spec_method_status(Method::Stacked)),
                ),
            ),
        }
    }
}

impl From<StackedEvent> for Event {
    fn from(val: StackedEvent) -> (event: Self) {
        Self::new(StackedEvent::method(), EventPayload::StackedEvent(val))
    }
}

impl FromSpecImpl<StackedEvent> for Event {
    open spec fn obeys_from_spec() -> bool {
        true
    }

    open spec fn from_spec(val: StackedEvent) -> Self {
        Event::spec_new(Method::Stacked, EventPayload::StackedEvent(val))
    }
}

impl TryFrom<Event> for StackedEvent {
    type Error = Error;

    /// Takes the event out of the payload of a generic event. Fails, with the
    /// event found and the event wanted, where the payload is of another
    /// event.
    fn try_from(val: Event) -> (res: Result<Self, Error>) {
        StackedEvent::try_from(val.payload)
    }
}

impl TryFromSpecImpl<Event> for StackedEvent {
    open spec fn obeys_try_from_spec() -> bool {
        true
    }

    open spec fn try_from_spec(val: Event) -> Result<Self, Error> {
        match val.spec_payload() {
            EventPayload::StackedEvent(evt) => Ok(evt),
            event => Err(
                Error::InvalidEvent(
                    (spec_method_status(event.spec_method()), spec_method_status(Method::Stacked)),
                ),
            ),
        }
    }
}

impl From<StackerFullEvent> for EventPayload {
    fn from(val: StackerFullEvent) -> (payload: Self) {
        Self::StackerFullEvent(val)
    }
}

impl FromSpecImpl<StackerFullEvent> for EventPayload {
    open spec fn obeys_from_spec() -> bool {
        true
    }

    open spec fn from_spec(val: StackerFullEvent) -> Self {
        EventPayload::StackerFullEvent(val)
    }
}

impl TryFrom<EventPayload> for StackerFullEvent {
    type Error = Error;

    /// Takes the event out of its payload. Fails, with the event found and
    /// the event wanted, where the payload is of another event.
    fn try_from(val: EventPayload) -> (res: Result<Self, Error>) {
        match val {
            EventPayload::StackerFullEvent(evt) => Ok(evt),
            event => Err(
                Error::InvalidEvent(
                    (ResponseStatus::from(event.method()), ResponseStatus::from(StackerFullEvent::method())),
                ),
            ),
        }
    }
}

impl TryFromSpecImpl<EventPayload> for StackerFullEvent {
    open spec fn obeys_try_from_spec() -> bool {
        true
    }

    open spec fn try_from_spec(val: EventPayload) -> Result<Self, Error> {
        match val {
            EventPayload::StackerFullEvent(evt) => Ok(evt),
            event => Err(
                Error::InvalidEvent(
                    (spec_method_status(event.spec_method()), spec_method_status(Method::StackerFull)),
                ),
            ),
        }
    }
}

impl From<StackerFullEvent> for Event {
    fn from(val: StackerFullEvent) -> (event: Self) {
        Self::new(StackerFullEvent::method(), EventPayload::StackerFullEvent(val))
    }
}

impl FromSpecImpl<StackerFullEvent> for Event {
    open spec fn obeys_from_spec() -> bool {
        true
    }

    open spec fn from_spec(val: StackerFullEvent) -> Self {
        Event::spec_new(Method::StackerFull, EventPayload::StackerFullEvent(val))
    }
}

impl TryFrom<Event> for StackerFullEvent {
    type Error = Error;

    /// Takes the event out of the payload of a generic event. Fails, with the
    /// event found and the event wanted, where the payload is of another
    /// event.
    fn try_from(val: Event) -> (res: Result<Self, Error>) {
        StackerFullEvent::try_from(val.payload)
    }
}

impl TryFromSpecImpl<Event> for StackerFullEvent {
    open spec fn obeys_try_from_spec() -> bool {
        true
    }

    open spec fn try_from_spec(val: Event) -> Result<Self, Error> {
        match val.spec_payload() {
            EventPayload::StackerFullEvent(evt) => Ok(evt),
            event => Err(
                Error::InvalidEvent(
                    (spec_method_status(event.spec_method()), spec_method_status(Method::StackerFull)),
                ),
            ),
        }
    }
}

impl From<StackingEvent> for EventPayload {
    fn from(val: StackingEvent) -> (payload: Self) {
        Self::StackingEvent(val)
    }
}

impl FromSpecImpl<StackingEvent> for EventPayload {
    open spec fn obeys_from_spec() -> bool {
        true
    }

    open spec fn from_spec(val: StackingEvent) -> Self {
        EventPayload::StackingEvent(val)
    }
}

impl TryFrom<EventPayload> for StackingEvent {
    type Error = Error;

    /// Takes the event out of its payload. Fails, with the event found and
    /// the event wanted, where the payload is of another event.
    fn try_from(val: EventPayload) -> (res: Result<Self, Error>) {
        match val {
            EventPayload::StackingEvent(evt) => Ok(evt),
            event => Err(
                Error::InvalidEvent(
                    (ResponseStatus::from(event.method()), ResponseStatus::from(StackingEvent::method())),
                ),
            ),
        }
    }
}

impl TryFromSpecImpl<EventPayload> for StackingEvent {
    open spec fn obeys_try_from_spec() -> bool {
        true
    }

    open spec fn try_from_spec(val: EventPayload) -> Result<Self, Error> {
        match val {
            EventPayload::StackingEvent(evt) => Ok(evt),
            event => Err(
                Error::InvalidEvent(
                    (spec_method_status(event.spec_method()), spec_method_status(Method::Stacking)),
                ),
            ),
        }
    }
}

impl From<StackingEvent> for Event {
    fn from(val: StackingEvent) -> (event: Self) {
        Self::new(StackingEvent::method(), EventPayload::StackingEvent(val))
    }
}

impl FromSpecImpl<StackingEvent> for Event {
    open spec fn obeys_from_spec() -> bool {
        true
    }

    open spec fn from_spec(val: StackingEvent) -> Self {
        Event::spec_new(Method::Stacking, EventPayload::StackingEvent(val))
    }
}

impl TryFrom<Event> for StackingEvent {
    type Error = Error;

    /// Takes the event out of the payload of a generic event. Fails, with the
    /// event found and the event wanted, where the payload is of another
    /// event.
    fn try_from(val: Event) -> (res: Result<Self, Error>) {
        StackingEvent::try_from(val.payload)
    }
}

impl TryFromSpecImpl<Event> for StackingEvent {
    open spec fn obeys_try_from_spec() -> bool {
        true
    }

    open spec fn try_from_spec(val: Event) -> Result<Self, Error> {
        match val.spec_payload() {
            EventPayload::StackingEvent(evt) => Ok(evt),
            event => Err(
                Error::InvalidEvent(
                    (spec_method_status(event.spec_method()), spec_method_status(Method::Stacking)),
                ),
            ),
        }
    }
}

impl From<UnsafeJamEvent> for EventPayload {
    fn from(val: UnsafeJamEvent) -> (payload: Self) {
        Self::UnsafeJamEvent(val)
    }
}

impl FromSpecImpl<UnsafeJamEvent> for EventPayload {
    open spec fn obeys_from_spec() -> bool {
        true
    }

    open spec fn from_spec(val: UnsafeJamEvent) -> Self {
        EventPayload::UnsafeJamEvent(val)
    }
}

impl TryFrom<EventPayload> for UnsafeJamEvent {
    type Error = Error;

    /// Takes the event out of its payload. Fails, with the event found and
    /// the event wanted, where the payload is of another event.
    fn try_from(val: EventPayload) -> (res: Result<Self, Error>) {
        match val {
            EventPayload::UnsafeJamEvent(evt) => Ok(evt),
            event => Err(
                Error::InvalidEvent(
                    (ResponseStatus::from(event.method()), ResponseStatus::from(UnsafeJamEvent::method())),
                ),
            ),
        }
    }
}

impl TryFromSpecImpl<EventPayload> for UnsafeJamEvent {
    open spec fn obeys_try_from_spec() -> bool {
        true
    }

    open spec fn try_from_spec(val: EventPayload) -> Result<Self, Error> {
        match val {
            EventPayload::UnsafeJamEvent(evt) => Ok(evt),
            event => Err(
                Error::InvalidEvent(
                    (spec_method_status(event.spec_method()), spec_method_status(Method::UnsafeJam)),
                ),
            ),
        }
    }
}

impl From<UnsafeJamEvent> for Event {
    fn from(val: UnsafeJamEvent) -> (event: Self) {
        Self::new(UnsafeJamEvent::method(), EventPayload::UnsafeJamEvent(val))
    }
}

impl FromSpecImpl<UnsafeJamEvent> for Event {
    open spec fn obeys_from_spec() -> bool {
        true
    }

    open spec fn from_spec(val: UnsafeJamEvent) -> Self {
        Event::spec_new(Method::UnsafeJam, EventPayload::UnsafeJamEvent(val))
    }
}

impl TryFrom<Event> for UnsafeJamEvent {
    type Error = Error;

    /// Takes the event out of the payload of a generic event. Fails, with the
    /// event found and the event wanted, where the payload is of another
    /// event.
    fn try_from(val: Event) -> (res: Result<Self, Error>) {
        UnsafeJamEvent::try_from(val.payload)
    }
}

impl TryFromSpecImpl<Event> for UnsafeJamEvent {
    open spec fn obeys_try_from_spec() -> bool {
        true
    }

    open spec fn try_from_spec(val: Event) -> Result<Self, Error> {
        match val.spec_payload() {
            EventPayload::UnsafeJamEvent(evt) => Ok(evt),
            event => Err(
                Error::InvalidEvent(
                    (spec_method_status(event.spec_method()), spec_method_status(Method::UnsafeJam)),
                ),
            ),
        }
    }
}

} // verus!
