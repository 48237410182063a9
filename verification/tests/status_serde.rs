use serde::ser::{Serialize, SerializeStruct, Serializer};

use ssp::types::events::StatusEvent;
use ssp::types::{DeviceStatus, ProtocolVersion, ResponseStatus};

struct Details<'a>(&'a DeviceStatus);

struct Shown<'a>(&'a StatusEvent);

fn status_name(status: ResponseStatus) -> String {
    match status {
        ResponseStatus::Success => "Ok".to_string(),
        other => format!("{other:?}"),
    }
}

fn protocol_name(version: ProtocolVersion) -> String {
    format!("{version:?}")
}

impl Serialize for Details<'_> {
    fn serialize<S: Serializer>(&self, serializer: S) -> Result<S::Ok, S::Error> {
        let report = self.0;
        let country_code = String::from_utf8_lossy(&report.country_code().letters()).into_owned();
        let dataset_version = report.dataset_version();
        let dataset_version = String::from_utf8_lossy(dataset_version.as_bytes()).into_owned();
        let mut fields = serializer.serialize_struct("DeviceStatus", 8)?;
        fields.serialize_field("status", &status_name(report.status()))?;
        fields.serialize_field("unit_type", &report.unit_type())?;
        fields.serialize_field("firmware_version", &report.firmware_version())?;
        fields.serialize_field("country_code", &country_code)?;
        fields.serialize_field("value_multiplier", &report.value_multiplier())?;
        fields.serialize_field("protocol_version", &protocol_name(report.protocol_version()))?;
        fields.serialize_field("dataset_version", &dataset_version)?;
        fields.serialize_field("cashbox_attached", &report.cashbox_attached())?;
        fields.end()
    }
}

impl Serialize for Shown<'_> {
    fn serialize<S: Serializer>(&self, serializer: S) -> Result<S::Ok, S::Error> {
        let mut fields = serializer.serialize_struct("StatusEvent", 1)?;
        fields.serialize_field("details", &Details(self.0.device_status()))?;
        fields.end()
    }
}

#[test]
fn test_status_event_serde() -> Result<(), serde_json::Error> {
    let event = StatusEvent::default();
    let exp_event_str = r#"{"details":{"status":"Ok","unit_type":0,"firmware_version":0,"country_code":"XXX","value_multiplier":0,"protocol_version":"Reserved","dataset_version":"","cashbox_attached":false}}"#;

    assert_eq!(serde_json::to_string(&Shown(&event))?.as_str(), exp_event_str);

    Ok(())
}
