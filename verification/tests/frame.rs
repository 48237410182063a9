use ssp::crc::{crc16, crc16_byte, CRC_POLY, CRC_SEED};
use ssp::encrypted::wrapped::{DATA, LEN, SEQ_ID, STEX, STX};
use ssp::encrypted::WrappedEncryptedMessage;
use ssp::error::Error;
use ssp::len::{METADATA, WRAPPED_ENCRYPTED_MESSAGE};

#[test]
fn crc_of_known_messages() {
    assert_eq!(crc16(b"123456789"), 0xAEE7);
    assert_eq!(crc16(&[0x80, 0x01, 0x11]), 0x8265);
    assert_eq!(crc16(&[]), 0xFFFF);
    assert_eq!(crc16(&[0x00]), 0xFD02);
    assert_eq!(CRC_SEED, 0xFFFF);
    assert_eq!(CRC_POLY, 0x8005);
}

#[test]
fn crc_is_fed_byte_by_byte() {
    let mut crc = CRC_SEED;
    for &byte in b"123456789" {
        crc = crc16_byte(crc, byte);
    }
    assert_eq!(crc, 0xAEE7);
}

#[test]
fn new_frame_has_start_byte_and_marker() {
    let frame = WrappedEncryptedMessage::new();
    let bytes = frame.as_bytes();
    assert_eq!(bytes.len(), WRAPPED_ENCRYPTED_MESSAGE);
    assert_eq!(bytes[0], STX);
    assert_eq!(bytes[SEQ_ID], 0);
    assert_eq!(bytes[LEN], 0);
    assert_eq!(bytes[DATA], STEX);
    assert!(bytes[4..].iter().all(|&b| b == 0));
    assert_eq!(frame.data_len(), 0);
    assert_eq!(frame.len(), METADATA);
    assert!(frame.data().is_empty());
    assert!(frame.encrypted_data().is_empty());
}

#[test]
fn frame_of_the_sync_command() {
    let mut frame = WrappedEncryptedMessage::from_bytes(&[0x7F, 0x80, 0x01, 0x11]);
    assert_eq!(frame.data(), &[0x11]);
    assert_eq!(frame.calculate_checksum(), 0x8265);
    assert_eq!(&frame.as_bytes()[..6], &[0x7F, 0x80, 0x01, 0x11, 0x65, 0x82]);
    assert_eq!(frame.checksum(), 0x8265);
    assert_eq!(frame.verify_checksum(), Ok(()));
    assert_eq!(frame.len(), 6);
}

#[test]
fn from_bytes_cuts_and_fills() {
    let long = vec![0x33u8; WRAPPED_ENCRYPTED_MESSAGE + 10];
    let frame = WrappedEncryptedMessage::from_bytes(&long);
    assert_eq!(frame.as_bytes(), &long[..WRAPPED_ENCRYPTED_MESSAGE]);
    let short = WrappedEncryptedMessage::from_bytes(&[1, 2]);
    assert_eq!(&short.as_bytes()[..2], &[1, 2]);
    assert!(short.as_bytes()[2..].iter().all(|&b| b == 0));
}

#[test]
fn set_data_len_changes_only_the_length_byte() {
    let mut frame = WrappedEncryptedMessage::new();
    frame.set_data_len(17);
    assert_eq!(frame.data_len(), 17);
    assert_eq!(frame.len(), 22);
    assert_eq!(frame.data().len(), 17);
    let mut expected = WrappedEncryptedMessage::new().as_bytes().to_vec();
    expected[LEN] = 17;
    assert_eq!(frame.as_bytes(), &expected[..]);
}

#[test]
fn set_data_stores_length_and_bytes() {
    let mut frame = WrappedEncryptedMessage::new();
    assert_eq!(frame.set_data(&[9, 8, 7]), Ok(()));
    assert_eq!(frame.data_len(), 3);
    assert_eq!(frame.data(), &[9, 8, 7]);
    assert_eq!(frame.encrypted_data(), &[8, 7]);
    let longest = vec![0x10u8; 255];
    assert_eq!(frame.set_data(&longest), Ok(()));
    assert_eq!(frame.data(), &longest[..]);
    let before = frame.clone();
    let too_long = vec![0u8; 256];
    assert_eq!(frame.set_data(&too_long), Err(Error::InvalidDataLength((256, 255))));
    assert_eq!(frame, before);
}

#[test]
fn set_encrypted_data_stands_behind_the_marker() {
    let mut frame = WrappedEncryptedMessage::new();
    assert_eq!(frame.set_encrypted_data(&[5, 6, 7, 8]), Ok(()));
    assert_eq!(frame.data_len(), 5);
    assert_eq!(frame.data(), &[STEX, 5, 6, 7, 8]);
    assert_eq!(frame.encrypted_data(), &[5, 6, 7, 8]);
    let longest = vec![0x21u8; 254];
    assert_eq!(frame.set_encrypted_data(&longest), Ok(()));
    assert_eq!(frame.data_len(), 255);
    assert_eq!(frame.encrypted_data(), &longest[..]);
    let before = frame.clone();
    let too_long = vec![0u8; 255];
    assert_eq!(
        frame.set_encrypted_data(&too_long),
        Err(Error::InvalidDataLength((255, 254)))
    );
    assert_eq!(frame, before);
}

#[test]
fn verify_checksum_reports_both_checksums() {
    let mut frame = WrappedEncryptedMessage::from_bytes(&[0x7F, 0x80, 0x01, 0x11, 0x00, 0x00]);
    assert_eq!(frame.verify_checksum(), Err(Error::ChecksumMismatch((0x0000, 0x8265))));
    frame.calculate_checksum();
    assert_eq!(frame.verify_checksum(), Ok(()));
}

#[test]
fn stuffing_doubles_every_start_byte_behind_the_first() {
    let mut frame = WrappedEncryptedMessage::from_bytes(&[0x7F, 0x7F, 0x03, 0x7F, 0x01, 0x7F, 0xAA, 0x7F]);
    assert_eq!(frame.stuff_encrypted_data(), Ok(12));
    let wire = [0x7F, 0x7F, 0x7F, 0x03, 0x7F, 0x7F, 0x01, 0x7F, 0x7F, 0xAA, 0x7F, 0x7F];
    assert_eq!(&frame.as_bytes()[..12], &wire);
    assert!(frame.as_bytes()[12..].iter().all(|&b| b == 0));
    assert_eq!(frame.unstuff_encrypted_data(), Ok(8));
    assert_eq!(&frame.as_bytes()[..8], &[0x7F, 0x7F, 0x03, 0x7F, 0x01, 0x7F, 0xAA, 0x7F]);
    assert!(frame.as_bytes()[8..].iter().all(|&b| b == 0));
}

#[test]
fn stuffing_leaves_a_frame_without_start_bytes_as_it_is() {
    let mut frame = WrappedEncryptedMessage::from_bytes(&[0x7F, 0x80, 0x01, 0x11, 0x65, 0x82]);
    let before = frame.clone();
    assert_eq!(frame.stuff_encrypted_data(), Ok(6));
    assert_eq!(frame, before);
    assert_eq!(frame.unstuff_encrypted_data(), Ok(6));
    assert_eq!(frame, before);
}

#[test]
fn stuffing_drops_what_stands_behind_the_frame() {
    let mut frame = WrappedEncryptedMessage::from_bytes(&[0x7F, 0x80, 0x01, 0x11, 0x65, 0x82, 0xEE, 0xEE]);
    assert_eq!(frame.stuff_encrypted_data(), Ok(6));
    assert_eq!(&frame.as_bytes()[..8], &[0x7F, 0x80, 0x01, 0x11, 0x65, 0x82, 0x00, 0x00]);
}

#[test]
fn longest_frame_of_start_bytes_fits_when_stuffed() {
    let mut bytes = vec![0x7Fu8; 260];
    bytes[LEN] = 0xFF;
    let mut frame = WrappedEncryptedMessage::from_bytes(&bytes);
    assert_eq!(frame.stuff_encrypted_data(), Ok(1 + 2 * 258 + 1));
    assert_eq!(frame.unstuff_encrypted_data(), Ok(260));
    assert_eq!(&frame.as_bytes()[..260], &bytes[..]);
}

#[test]
fn frames_without_start_byte_are_framing_errors() {
    let mut frame = WrappedEncryptedMessage::from_bytes(&[0x00, 0x80, 0x01, 0x11, 0x65, 0x82]);
    let before = frame.clone();
    assert_eq!(frame.stuff_encrypted_data(), Err(Error::FramingError));
    assert_eq!(frame, before);
    assert_eq!(frame.unstuff_encrypted_data(), Err(Error::FramingError));
    assert_eq!(frame, before);
}

#[test]
fn a_lone_start_byte_is_a_framing_error() {
    let mut in_head = WrappedEncryptedMessage::from_bytes(&[0x7F, 0x7F, 0x01, 0x11, 0x65, 0x82]);
    let before = in_head.clone();
    assert_eq!(in_head.unstuff_encrypted_data(), Err(Error::FramingError));
    assert_eq!(in_head, before);
    let mut in_data = WrappedEncryptedMessage::from_bytes(&[0x7F, 0x80, 0x02, 0x7F, 0x11, 0x65, 0x82]);
    assert_eq!(in_data.unstuff_encrypted_data(), Err(Error::FramingError));
    let mut in_checksum = WrappedEncryptedMessage::from_bytes(&[0x7F, 0x80, 0x01, 0x11, 0x65, 0x7F, 0x00]);
    assert_eq!(in_checksum.unstuff_encrypted_data(), Err(Error::FramingError));
}
