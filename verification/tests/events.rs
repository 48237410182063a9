use ssp::error::Error;
use ssp::types::events::{
    CashboxRemovedEvent, CashboxReplacedEvent, DisableEvent, DisabledEvent, EnableEvent, Event,
    EventPayload, FraudAttemptEvent, Method, NoteClearedFromFrontEvent,
    NoteClearedIntoCashboxEvent, NoteCreditEvent, ReadEvent, RejectEvent, RejectedEvent,
    RejectingEvent, ResetEvent, StackEvent, StackedEvent, StackerFullEvent, StackingEvent,
    StatusEvent, UnsafeJamEvent,
};
use ssp::types::{
    channel_value, ChannelValue, CountryCode, DatasetVersion, DeviceStatus, ProtocolVersion,
    ResponseStatus,
};

const METHODS: [Method; 22] = [
    Method::Fail,
    Method::Disable,
    Method::Shutdown,
    Method::Enable,
    Method::Reject,
    Method::Stack,
    Method::Status,
    Method::CashboxRemoved,
    Method::CashboxReplaced,
    Method::Disabled,
    Method::FraudAttempt,
    Method::NoteClearedFromFront,
    Method::NoteClearedIntoCashbox,
    Method::NoteCredit,
    Method::Read,
    Method::Rejected,
    Method::Rejecting,
    Method::Reset,
    Method::Stacked,
    Method::StackerFull,
    Method::Stacking,
    Method::UnsafeJam,
];

fn report_of(status: ResponseStatus, unit_type: u8, firmware: u32, multiplier: u32) -> DeviceStatus {
    DeviceStatus::new(
        status,
        unit_type,
        firmware,
        CountryCode::new(*b"EUR"),
        multiplier,
        ProtocolVersion::Six,
        DatasetVersion::new(b"EUR01610").unwrap(),
        true,
    )
}

fn channels() -> Vec<ChannelValue> {
    vec![
        ChannelValue::from_inner(0),
        ChannelValue::from_inner(5),
        ChannelValue::from_inner(10),
        ChannelValue::from_inner(20),
    ]
}

#[test]
fn status_bytes() {
    assert_eq!(ResponseStatus::from(0xF0), ResponseStatus::Success);
    assert_eq!(ResponseStatus::from(0xF1), ResponseStatus::DeviceReset);
    assert_eq!(ResponseStatus::from(0xE3), ResponseStatus::CashboxRemoved);
    assert_eq!(ResponseStatus::from(0xCC), ResponseStatus::Stacking);
    assert_eq!(ResponseStatus::from(0x00), ResponseStatus::Reserved);
    assert_eq!(ResponseStatus::from(0xFF), ResponseStatus::Reserved);
    assert_eq!(u8::from(ResponseStatus::Rejecting), 0xED);
    assert_eq!(u8::from(ResponseStatus::Reserved), 0xFF);
    let mut known = 0;
    for byte in 0u8..=255 {
        let status = ResponseStatus::from(byte);
        if status != ResponseStatus::Reserved {
            known += 1;
            assert_eq!(u8::from(status), byte);
        }
        assert_eq!(ResponseStatus::from(u8::from(status)), status);
    }
    assert_eq!(known, 24);
}

#[test]
fn channel_values() {
    assert_eq!(ChannelValue::new().as_inner(), 0);
    assert_eq!(ChannelValue::default(), ChannelValue::from_inner(0));
    assert_eq!(ChannelValue::from_inner(50).as_inner(), 50);
    let table = channels();
    assert_eq!(channel_value(&table, 2), Ok(ChannelValue::from_inner(10)));
    assert_eq!(channel_value(&table, 3), Ok(ChannelValue::from_inner(20)));
    assert_eq!(channel_value(&table, 4), Err(Error::InvalidLength((4, 4))));
    assert_eq!(channel_value(&[], 0), Err(Error::InvalidLength((0, 0))));
}

#[test]
fn device_status_default_and_fields() {
    let report = DeviceStatus::default();
    assert_eq!(report.status(), ResponseStatus::Success);
    assert_eq!(report.unit_type(), 0);
    assert_eq!(report.firmware_version(), 0);
    assert_eq!(report.value_multiplier(), 0);
    assert!(!report.cashbox_attached());
    assert_eq!(report.country_code().letters(), *b"XXX");
    assert_eq!(report.country_code(), CountryCode::default());
    assert_eq!(report.protocol_version(), ProtocolVersion::Reserved);
    assert_eq!(report.dataset_version().as_bytes(), b"");
    assert_eq!(report.dataset_version(), DatasetVersion::default());
    let report = report_of(ResponseStatus::Disabled, 6, 123, 100);
    assert_eq!(report.status(), ResponseStatus::Disabled);
    assert_eq!(report.unit_type(), 6);
    assert_eq!(report.firmware_version(), 123);
    assert_eq!(report.value_multiplier(), 100);
    assert!(report.cashbox_attached());
    assert_eq!(report.country_code().letters(), *b"EUR");
    assert_eq!(report.protocol_version(), ProtocolVersion::Six);
    assert_eq!(report.dataset_version().as_bytes(), b"EUR01610");
}

#[test]
fn dataset_version_holds_up_to_eight_characters() {
    assert_eq!(DatasetVersion::new(b"").unwrap(), DatasetVersion::default());
    assert_eq!(DatasetVersion::new(b"GBP").unwrap().as_bytes(), b"GBP");
    assert_eq!(DatasetVersion::new(b"12345678").unwrap().as_bytes(), b"12345678");
    assert_eq!(DatasetVersion::new(b"123456789"), Err(Error::InvalidLength((9, 8))));
    assert_ne!(DatasetVersion::new(b"GBP").unwrap(), DatasetVersion::new(b"GBQ").unwrap());
    assert_eq!(ProtocolVersion::default(), ProtocolVersion::Reserved);
    assert_eq!(CountryCode::new(*b"USD").letters(), *b"USD");
}

#[test]
fn method_names() {
    assert_eq!(Method::Fail.to_str(), "fail");
    assert_eq!(Method::Shutdown.to_str(), "shutdown");
    assert_eq!(Method::NoteClearedFromFront.to_str(), "note_cleared_from_front");
    assert_eq!(Method::Reserved(9).to_str(), "reserved");
    let mut names: Vec<&str> = METHODS.iter().map(|m| m.to_str()).collect();
    names.sort();
    names.dedup();
    assert_eq!(names.len(), METHODS.len());
}

#[test]
fn method_status() {
    assert_eq!(ResponseStatus::from(Method::CashboxRemoved), ResponseStatus::CashboxRemoved);
    assert_eq!(ResponseStatus::from(Method::Reset), ResponseStatus::DeviceReset);
    assert_eq!(ResponseStatus::from(Method::Fail), ResponseStatus::Fail);
    assert_eq!(ResponseStatus::from(Method::Enable), ResponseStatus::Reserved);
    assert_eq!(ResponseStatus::from(Method::Reserved(3)), ResponseStatus::Reserved);
}

#[test]
fn events_know_their_method_name_and_length() {
    assert_eq!(CashboxRemovedEvent::method(), Method::CashboxRemoved);
    assert_eq!(CashboxRemovedEvent::new().to_str(), "cashbox_removed");
    assert_eq!(CashboxRemovedEvent::len(), 1);
    assert_eq!(RejectingEvent::method(), Method::Rejecting);
    assert_eq!(RejectingEvent::new().to_str(), "rejecting");
    assert_eq!(RejectingEvent::len(), 1);
    assert_eq!(StackerFullEvent::method(), Method::StackerFull);
    assert_eq!(StackerFullEvent::new().to_str(), "stacker_full");
    assert_eq!(StackerFullEvent::len(), 1);
    assert_eq!(ResetEvent::method(), Method::Reset);
    assert_eq!(ResetEvent::len(), 1);
    assert_eq!(StackingEvent::method(), Method::Stacking);
    assert_eq!(StackingEvent::len(), 1);
    assert_eq!(StatusEvent::method(), Method::Status);
    assert_eq!(StatusEvent::default().to_str(), "status");
    assert_eq!(StatusEvent::len(), 14);
    assert_eq!(NoteClearedFromFrontEvent::method(), Method::NoteClearedFromFront);
    assert_eq!(NoteClearedFromFrontEvent::default().to_str(), "note_cleared_from_front");
    assert_eq!(NoteClearedFromFrontEvent::len(), 2);
    assert_eq!(CashboxRemovedEvent::default(), CashboxRemovedEvent::new());
}

#[test]
fn note_cleared_from_front_holds_a_value() {
    let mut event = NoteClearedFromFrontEvent::new(ChannelValue::from_inner(20));
    assert_eq!(event.value(), &ChannelValue::from_inner(20));
    event.set_value(ChannelValue::from_inner(50));
    assert_eq!(event.value().as_inner(), 50);
    assert_eq!(event, NoteClearedFromFrontEvent::new(ChannelValue::from_inner(50)));
    assert_eq!(NoteClearedFromFrontEvent::default().value().as_inner(), 0);
    assert_eq!(NoteClearedFromFrontEvent::from(ChannelValue::from_inner(5)).value().as_inner(), 5);
}

#[test]
fn status_event_holds_a_report() {
    let report = report_of(ResponseStatus::Success, 0, 7, 1);
    let event = StatusEvent::new(report);
    assert_eq!(event.device_status(), &report);
    assert_eq!(StatusEvent::default().device_status(), &DeviceStatus::default());
}

#[test]
fn events_are_read_from_their_status_byte() {
    assert_eq!(CashboxRemovedEvent::try_from(&[0xE3u8][..]), Ok(CashboxRemovedEvent::new()));
    assert_eq!(CashboxRemovedEvent::try_from(&[0xE3u8, 0x01][..]), Ok(CashboxRemovedEvent::new()));
    assert_eq!(
        CashboxRemovedEvent::try_from(&[][..]),
        Err(Error::InvalidLength((0, 1)))
    );
    assert_eq!(
        CashboxRemovedEvent::try_from(&[0xE4u8][..]),
        Err(Error::InvalidEvent((ResponseStatus::CashboxReplaced, ResponseStatus::CashboxRemoved)))
    );
    assert_eq!(RejectingEvent::try_from(&[0xEDu8][..]), Ok(RejectingEvent::new()));
    assert_eq!(
        RejectingEvent::try_from(&[0xECu8][..]),
        Err(Error::InvalidEvent((ResponseStatus::Rejected, ResponseStatus::Rejecting)))
    );
    assert_eq!(ResetEvent::try_from(&[0xF1u8][..]), Ok(ResetEvent::new()));
    assert_eq!(
        ResetEvent::try_from(&[0x01u8][..]),
        Err(Error::InvalidEvent((ResponseStatus::Reserved, ResponseStatus::DeviceReset)))
    );
    assert_eq!(StackerFullEvent::try_from(&[0xE7u8][..]), Ok(StackerFullEvent::new()));
    assert_eq!(StackerFullEvent::try_from(&[][..]), Err(Error::InvalidLength((0, 1))));
    assert_eq!(StackingEvent::try_from(&[0xCCu8][..]), Ok(StackingEvent::new()));
    assert_eq!(
        StackingEvent::try_from(&[0xEBu8][..]),
        Err(Error::InvalidEvent((ResponseStatus::Stacked, ResponseStatus::Stacking)))
    );
}

#[test]
fn note_cleared_from_front_is_read_with_its_channel() {
    let table = channels();
    assert_eq!(
        NoteClearedFromFrontEvent::from_bytes(&[0xE1, 0x02], &table),
        Ok(NoteClearedFromFrontEvent::new(ChannelValue::from_inner(10)))
    );
    assert_eq!(
        NoteClearedFromFrontEvent::from_bytes(&[], &table),
        Err(Error::InvalidLength((0, 2)))
    );
    assert_eq!(
        NoteClearedFromFrontEvent::from_bytes(&[0xE1], &table),
        Err(Error::InvalidLength((1, 2)))
    );
    assert_eq!(
        NoteClearedFromFrontEvent::from_bytes(&[0xE2, 0x02], &table),
        Err(Error::InvalidEvent((
            ResponseStatus::NoteClearedIntoCashbox,
            ResponseStatus::NoteClearedFromFront
        )))
    );
    assert_eq!(
        NoteClearedFromFrontEvent::from_bytes(&[0xE1, 0x04], &table),
        Err(Error::InvalidLength((4, 4)))
    );
}

#[test]
fn payloads_belong_to_the_method_of_their_event() {
    assert_eq!(EventPayload::Error(Error::Generic(5)).method(), Method::Fail);
    assert_eq!(EventPayload::from(DisableEvent::new()).method(), Method::Disable);
    assert_eq!(EventPayload::from(EnableEvent::new()).method(), Method::Enable);
    assert_eq!(EventPayload::from(RejectEvent::new()).method(), Method::Reject);
    assert_eq!(EventPayload::from(StackEvent::new()).method(), Method::Stack);
    assert_eq!(EventPayload::from(StatusEvent::default()).method(), Method::Status);
    assert_eq!(EventPayload::from(CashboxRemovedEvent::new()).method(), Method::CashboxRemoved);
    assert_eq!(EventPayload::from(CashboxReplacedEvent::new()).method(), Method::CashboxReplaced);
    assert_eq!(EventPayload::from(DisabledEvent::new()).method(), Method::Disabled);
    assert_eq!(EventPayload::from(FraudAttemptEvent::default()).method(), Method::FraudAttempt);
    assert_eq!(
        EventPayload::from(NoteClearedFromFrontEvent::default()).method(),
        Method::NoteClearedFromFront
    );
    assert_eq!(
        EventPayload::from(NoteClearedIntoCashboxEvent::default()).method(),
        Method::NoteClearedIntoCashbox
    );
    assert_eq!(EventPayload::from(NoteCreditEvent::default()).method(), Method::NoteCredit);
    assert_eq!(EventPayload::from(ReadEvent::default()).method(), Method::Read);
    assert_eq!(EventPayload::from(RejectedEvent::new()).method(), Method::Rejected);
    assert_eq!(EventPayload::from(RejectingEvent::new()).method(), Method::Rejecting);
    assert_eq!(EventPayload::from(ResetEvent::new()).method(), Method::Reset);
    assert_eq!(EventPayload::from(StackedEvent::new()).method(), Method::Stacked);
    assert_eq!(EventPayload::from(StackerFullEvent::new()).method(), Method::StackerFull);
    assert_eq!(EventPayload::from(StackingEvent::new()).method(), Method::Stacking);
    assert_eq!(EventPayload::from(UnsafeJamEvent::new()).method(), Method::UnsafeJam);
}

#[test]
fn events_are_taken_out_of_their_payload() {
    let payload = EventPayload::from(StackerFullEvent::new());
    assert_eq!(StackerFullEvent::try_from(payload), Ok(StackerFullEvent::new()));
    assert_eq!(
        CashboxRemovedEvent::try_from(payload),
        Err(Error::InvalidEvent((ResponseStatus::StackerFull, ResponseStatus::CashboxRemoved)))
    );
    assert_eq!(
        ResetEvent::try_from(EventPayload::Error(Error::Generic(1))),
        Err(Error::InvalidEvent((ResponseStatus::Fail, ResponseStatus::DeviceReset)))
    );
    let note = NoteClearedFromFrontEvent::new(ChannelValue::from_inner(20));
    assert_eq!(NoteClearedFromFrontEvent::try_from(EventPayload::from(note)), Ok(note));
    let status = StatusEvent::new(report_of(ResponseStatus::Success, 1, 2, 3));
    assert_eq!(StatusEvent::try_from(EventPayload::from(status)), Ok(status));
    assert_eq!(
        StatusEvent::try_from(EventPayload::from(note)),
        Err(Error::InvalidEvent((ResponseStatus::NoteClearedFromFront, ResponseStatus::Reserved)))
    );
}

#[test]
fn generic_event_holds_method_and_payload() {
    let mut event = Event::new(Method::Reset, EventPayload::from(ResetEvent::new()));
    assert_eq!(event.method(), Method::Reset);
    assert_eq!(event.method_str(), "reset");
    assert_eq!(event.payload(), &EventPayload::ResetEvent(ResetEvent::new()));
    event.set_method(Method::Stacking);
    assert_eq!(event.method(), Method::Stacking);
    assert_eq!(event.payload(), &EventPayload::ResetEvent(ResetEvent::new()));
    event.set_payload(EventPayload::from(StackingEvent::new()));
    assert_eq!(event.payload(), &EventPayload::StackingEvent(StackingEvent::new()));
    assert_eq!(event.method(), Method::Stacking);
}

#[test]
fn event_of_a_method_starts_with_its_payload() {
    for method in METHODS {
        let event = Event::from(method);
        assert_eq!(event.method(), method);
        let expected = match method {
            Method::Fail => Method::Fail,
            Method::Shutdown => Method::Disable,
            other => other,
        };
        assert_eq!(event.payload().method(), expected);
    }
    assert_eq!(Event::from(Method::Fail).payload(), &EventPayload::Error(Error::Generic(-1)));
    assert_eq!(
        Event::from(Method::Shutdown).payload(),
        &EventPayload::DisableEvent(DisableEvent::new())
    );
    assert_eq!(
        Event::from(Method::Status).payload(),
        &EventPayload::StatusEvent(StatusEvent::default())
    );
    assert_eq!(
        Event::from(Method::Read).payload(),
        &EventPayload::ReadEvent(ReadEvent::default())
    );
    let unknown = Event::from(Method::Reserved(200));
    assert_eq!(unknown.method(), Method::Reserved(200));
    assert_eq!(unknown.payload(), &EventPayload::Error(Error::Generic(-200)));
    assert_eq!(Event::from(Method::Reserved(0)).payload(), &EventPayload::Error(Error::Generic(0)));
}

#[test]
fn events_become_generic_events_and_back() {
    let event = Event::from(StackerFullEvent::new());
    assert_eq!(event.method(), Method::StackerFull);
    assert_eq!(event.payload(), &EventPayload::StackerFullEvent(StackerFullEvent::new()));
    assert_eq!(StackerFullEvent::try_from(event), Ok(StackerFullEvent::new()));
    assert_eq!(
        StackingEvent::try_from(event),
        Err(Error::InvalidEvent((ResponseStatus::StackerFull, ResponseStatus::Stacking)))
    );
    let note = NoteClearedFromFrontEvent::new(ChannelValue::from_inner(100));
    let event = Event::from(note);
    assert_eq!(event.method(), Method::NoteClearedFromFront);
    assert_eq!(NoteClearedFromFrontEvent::try_from(event), Ok(note));
}
