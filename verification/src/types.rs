//! Values that commands and polling responses carry.

pub mod channel_value;
pub mod device_status;
pub mod events;
pub mod response_status;

pub use channel_value::{channel_value, ChannelValue};
pub use device_status::{CountryCode, DatasetVersion, DeviceStatus, ProtocolVersion};
pub use response_status::ResponseStatus;
