//! Encrypted messages and the transport frame that carries them.

pub mod command;
pub mod encrypted_index;
pub mod wrapped;

pub use command::EncryptedCommand;
pub use wrapped::WrappedEncryptedMessage;
