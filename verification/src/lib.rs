//! Secure-channel layer of a serial command protocol for cash-handling
//! peripherals: the encrypted-message codec with its transport frame, and the
//! prime generator behind the key agreement.

pub mod len;
pub mod crc;
pub mod sequence;
pub mod error;
pub mod block_cipher;
pub mod encrypted;
pub mod packing;
pub mod primes;
pub mod types;
