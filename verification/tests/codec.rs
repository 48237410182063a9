use aes::cipher::generic_array::GenericArray;
use aes::cipher::{BlockDecrypt, BlockEncrypt, KeyInit};
use rand_chacha::rand_core::{RngCore, SeedableRng};
use rand_chacha::ChaCha20Rng;
use sha2::Digest;

use ssp::encrypted::wrapped::{STEX, STX};
use ssp::encrypted::{EncryptedCommand, WrappedEncryptedMessage};
use ssp::error::Error;
use ssp::len::{aes_packing_len, ENCRYPTED_COMMAND, ENCRYPTED_METADATA, MAX_ENCRYPTED_DATA};
use ssp::packing::PackingSource;
use ssp::sequence::{SequenceCount, SequenceCounter};

fn reference_crc(data: &[u8]) -> u16 {
    let mut crc: u16 = 0xFFFF;
    for &byte in data {
        crc ^= (byte as u16) << 8;
        for _ in 0..8 {
            crc = if crc & 0x8000 != 0 { (crc << 1) ^ 0x8005 } else { crc << 1 };
        }
    }
    crc
}

fn message_with(data: &[u8]) -> EncryptedCommand {
    EncryptedCommand::new().with_message_data(data.len(), data).unwrap()
}

#[test]
fn new_message_is_zeroed_with_start_marker() {
    let msg = EncryptedCommand::new();
    assert_eq!(msg.buf().len(), 17);
    assert_eq!(msg.buf()[0], STEX);
    assert!(msg.buf()[1..].iter().all(|&b| b == 0));
    assert_eq!(msg.data_len(), 0);
    assert_eq!(msg.message_data().len(), 0);
    assert_eq!(msg.count().as_inner(), 0);
}

#[test]
fn set_message_data_stores_length_and_bytes() {
    let mut msg = EncryptedCommand::new();
    assert_eq!(msg.set_message_data(3, &[1, 2, 3]), Ok(()));
    assert_eq!(msg.data_len(), 3);
    assert_eq!(msg.message_data(), &[1, 2, 3]);
    assert_eq!(msg.buf()[1], 3);
    assert_eq!(&msg.buf()[6..9], &[1, 2, 3]);
    assert_eq!(msg.data_start(), 6);
    assert_eq!(msg.data_end(), 9);
}

#[test]
fn set_message_data_accepts_longest_data() {
    let data = vec![0x55u8; MAX_ENCRYPTED_DATA];
    let mut msg = EncryptedCommand::new();
    assert_eq!(msg.set_message_data(data.len(), &data), Ok(()));
    assert_eq!(msg.message_data(), &data[..]);
}

#[test]
fn set_message_data_refuses_one_byte_too_many() {
    let data = vec![0x55u8; MAX_ENCRYPTED_DATA + 1];
    let mut msg = EncryptedCommand::new();
    let before = msg.clone();
    assert_eq!(
        msg.set_message_data(data.len(), &data),
        Err(Error::InvalidDataLength((MAX_ENCRYPTED_DATA + 1, MAX_ENCRYPTED_DATA)))
    );
    assert_eq!(msg, before);
}

#[test]
fn set_message_data_refuses_wrong_declared_length() {
    let mut msg = EncryptedCommand::new();
    assert_eq!(
        msg.set_message_data(4, &[1, 2, 3]),
        Err(Error::InvalidDataLength((4, 3)))
    );
    assert_eq!(msg, EncryptedCommand::new());
}

#[test]
fn with_message_data_reports_the_same_errors() {
    let long = vec![0u8; MAX_ENCRYPTED_DATA + 1];
    assert_eq!(
        EncryptedCommand::new().with_message_data(long.len(), &long),
        Err(Error::InvalidDataLength((MAX_ENCRYPTED_DATA + 1, MAX_ENCRYPTED_DATA)))
    );
    assert_eq!(
        EncryptedCommand::new().with_message_data(1, &[]),
        Err(Error::InvalidDataLength((1, 0)))
    );
}

#[test]
fn count_is_stored_least_significant_byte_first() {
    let msg = EncryptedCommand::new().with_count(SequenceCount::from_inner(0x0403_0201));
    assert_eq!(msg.count_buf(), &[1, 2, 3, 4]);
    assert_eq!(msg.count().as_inner(), 0x0403_0201);
    let mut other = EncryptedCommand::new();
    other.set_count(SequenceCount::from_inner(u32::MAX));
    assert_eq!(other.count_buf(), &[0xFF, 0xFF, 0xFF, 0xFF]);
    assert_eq!(other.count().as_inner(), u32::MAX);
}

#[test]
fn packing_len_values() {
    assert_eq!(EncryptedCommand::new().packing_len(), 9);
    assert_eq!(message_with(&[0u8; 1]).packing_len(), 8);
    assert_eq!(message_with(&[0u8; 9]).packing_len(), 0);
    assert_eq!(message_with(&[0u8; 10]).packing_len(), 15);
    assert_eq!(message_with(&[0u8; MAX_ENCRYPTED_DATA]).packing_len(), 0);
}

#[test]
fn packing_completes_the_last_block_for_every_length() {
    for len in 0..=MAX_ENCRYPTED_DATA {
        let msg = message_with(&vec![0u8; len]);
        let pad = msg.packing_len();
        assert!(pad < 16);
        assert_eq!((ENCRYPTED_METADATA - 1 + len + pad) % 16, 0);
        assert_eq!(pad, aes_packing_len(ENCRYPTED_METADATA - 1 + len));
        for shorter in 0..pad {
            assert_ne!((ENCRYPTED_METADATA - 1 + len + shorter) % 16, 0);
        }
        assert_eq!(msg.len(), ENCRYPTED_METADATA + len + pad);
        assert!(msg.len() <= ENCRYPTED_COMMAND);
        assert_eq!(msg.encrypt_data().len() % 16, 0);
        assert_eq!(msg.packing_start(), 6 + len);
        assert_eq!(msg.packing_end(), 6 + len + pad);
    }
}

#[test]
fn aes_packing_len_values() {
    assert_eq!(aes_packing_len(0), 0);
    assert_eq!(aes_packing_len(1), 15);
    assert_eq!(aes_packing_len(15), 1);
    assert_eq!(aes_packing_len(16), 0);
    assert_eq!(aes_packing_len(17), 15);
}

#[test]
fn zero_source_fills_packing_with_zeros() {
    let mut msg = message_with(&[7, 7, 7]);
    assert_eq!(msg.fill_packing(&[0xEE; 6]), Ok(()));
    msg.set_packing(PackingSource::Zero);
    assert_eq!(msg.packing(), &[0u8; 6]);
    assert_eq!(msg.message_data(), &[7, 7, 7]);
}

#[test]
fn fill_packing_stores_the_pad_or_refuses_its_length() {
    let mut msg = message_with(&[7, 7, 7]);
    assert_eq!(msg.fill_packing(&[1, 2, 3, 4, 5, 6]), Ok(()));
    assert_eq!(msg.packing(), &[1, 2, 3, 4, 5, 6]);
    let before = msg.clone();
    assert_eq!(msg.fill_packing(&[1, 2]), Err(Error::InvalidLength((2, 6))));
    assert_eq!(msg, before);
}

#[test]
fn seeded_source_draws_from_the_digest_of_message_and_count() {
    let mut msg = message_with(&[1, 2, 3]).with_count(SequenceCount::from_inner(9));
    let mut hasher = sha2::Sha256::new();
    hasher.update(msg.buf());
    hasher.update(msg.count_buf());
    let seed: [u8; 32] = hasher.finalize().into();
    let mut expected = [0u8; 6];
    ChaCha20Rng::from_seed(seed).fill_bytes(&mut expected);
    msg.set_packing(PackingSource::Seeded);
    assert_eq!(msg.packing(), &expected);
    assert_ne!(msg.packing(), &[0u8; 6]);
    assert_eq!(msg.message_data(), &[1, 2, 3]);
    assert_eq!(msg.count().as_inner(), 9);
}

#[test]
fn seed_is_the_sha256_digest() {
    let seed = ssp::packing::seed(b"ab", b"c");
    let expected: [u8; 32] = [
        0xba, 0x78, 0x16, 0xbf, 0x8f, 0x01, 0xcf, 0xea, 0x41, 0x41, 0x40, 0xde, 0x5d, 0xae, 0x22,
        0x23, 0xb0, 0x03, 0x61, 0xa3, 0x96, 0x17, 0x7a, 0x9c, 0xb4, 0x10, 0xff, 0x61, 0xf2, 0x00,
        0x15, 0xad,
    ];
    assert_eq!(seed, expected);
}

#[test]
fn entropy_source_fills_only_the_packing() {
    let mut msg = message_with(&[1, 2, 3]);
    let before = msg.clone();
    msg.set_packing(PackingSource::Entropy);
    assert_eq!(msg.packing().len(), 6);
    assert_eq!(&msg.buf()[..9], &before.buf()[..9]);
    assert_eq!(&msg.buf()[15..], &before.buf()[15..]);
}

#[test]
fn message_without_packing_is_left_alone() {
    let mut msg = message_with(&[3u8; 9]);
    let before = msg.clone();
    msg.set_packing(PackingSource::Entropy);
    assert_eq!(msg, before);
    assert_eq!(msg.packing().len(), 0);
}

#[test]
fn checksum_covers_all_between_marker_and_checksum() {
    let mut msg = message_with(&[1, 2, 3]);
    msg.set_packing(PackingSource::Zero);
    let crc = msg.calculate_checksum();
    let len = msg.len();
    assert_eq!(crc, reference_crc(&msg.buf()[1..len - 2]));
    assert_eq!(msg.buf()[len - 2], (crc & 0xff) as u8);
    assert_eq!(msg.buf()[len - 1], (crc >> 8) as u8);
    assert_eq!(msg.checksum(), crc);
    assert_eq!(msg.verify_checksum(), Ok(()));
    msg.set_count(SequenceCount::from_inner(1));
    let computed = reference_crc(&msg.buf()[1..len - 2]);
    assert_eq!(msg.verify_checksum(), Err(Error::ChecksumMismatch((crc, computed))));
}

#[test]
fn empty_data_with_zero_key_round_trips() {
    let key = [0u8; 16];
    let mut counter = SequenceCounter::new();
    counter.set(SequenceCount::from_inner(41));
    let before = counter.current();
    let frame = message_with(&[]).encrypt(&key, &mut counter, PackingSource::Entropy);
    assert_eq!(counter.current().as_inner(), 42);
    let msg = EncryptedCommand::decrypt(&key, frame, &mut counter);
    assert_eq!(counter.current().as_inner(), 43);
    assert!(msg.message_data().is_empty());
    assert_eq!(msg.count(), before);
    assert_eq!(msg.verify_checksum(), Ok(()));
}

#[test]
fn counter_at_zero_keeps_the_count_of_the_message() {
    let key = [0u8; 16];
    let mut counter = SequenceCounter::new();
    let frame = message_with(&[])
        .with_count(SequenceCount::from_inner(77))
        .encrypt(&key, &mut counter, PackingSource::Zero);
    let msg = EncryptedCommand::decrypt(&key, frame, &mut counter);
    assert_eq!(msg.count().as_inner(), 77);
    let mut fresh = SequenceCounter::new();
    let frame = message_with(&[]).encrypt(&key, &mut fresh, PackingSource::Zero);
    let msg = EncryptedCommand::decrypt(&key, frame, &mut fresh);
    assert_eq!(msg.count().as_inner(), 0);
}

#[test]
fn count_set_on_the_message_is_kept() {
    let key = [7u8; 16];
    let mut counter = SequenceCounter::new();
    counter.set(SequenceCount::from_inner(1000));
    let frame = EncryptedCommand::new()
        .with_count(SequenceCount::from_inner(3))
        .encrypt(&key, &mut counter, PackingSource::Zero);
    assert_eq!(counter.current().as_inner(), 1001);
    let msg = EncryptedCommand::decrypt(&key, frame, &mut counter);
    assert_eq!(msg.count().as_inner(), 3);
    let frame = message_with(&[1, 2]).encrypt(&key, &mut counter, PackingSource::Zero);
    let msg = EncryptedCommand::decrypt(&key, frame, &mut counter);
    assert_eq!(msg.count().as_inner(), 1002);
}

#[test]
fn longest_data_round_trips() {
    let key: [u8; 16] = [0x0F, 0x1E, 0x2D, 0x3C, 0x4B, 0x5A, 0x69, 0x78, 0x87, 0x96, 0xA5, 0xB4, 0xC3, 0xD2, 0xE1, 0xF0];
    let data = [0xAAu8; MAX_ENCRYPTED_DATA];
    let mut counter = SequenceCounter::new();
    counter.set(SequenceCount::from_inner(5));
    let sent = message_with(&data);
    let pad = sent.packing_len();
    let frame = sent.encrypt(&key, &mut counter, PackingSource::Entropy);
    let msg = EncryptedCommand::decrypt(&key, frame, &mut counter);
    assert_eq!(msg.message_data(), &data[..]);
    assert_eq!(msg.packing().len(), pad);
    assert_eq!(msg.packing_len(), message_with(&data).packing_len());
    assert_eq!(msg.count().as_inner(), 5);
    assert_eq!(msg.verify_checksum(), Ok(()));
}

#[test]
fn every_data_length_round_trips() {
    let key: [u8; 16] = [9, 8, 7, 6, 5, 4, 3, 2, 1, 0, 1, 2, 3, 4, 5, 6];
    let mut counter = SequenceCounter::new();
    for len in 0..=MAX_ENCRYPTED_DATA {
        // 0x7F is the start byte of the frame, so stuffing is always at work
        let data: Vec<u8> = (0..len).map(|i| if i % 3 == 0 { 0x7F } else { i as u8 }).collect();
        let before = counter.current().as_inner();
        let frame = message_with(&data).encrypt(&key, &mut counter, PackingSource::Seeded);
        assert_eq!(counter.current().as_inner(), before + 1);
        let msg = EncryptedCommand::decrypt(&key, frame, &mut counter);
        assert_eq!(counter.current().as_inner(), before + 2);
        assert_eq!(msg.message_data(), &data[..]);
        assert_eq!(msg.data_len(), len);
        assert_eq!(msg.verify_checksum(), Ok(()));
        if before != 0 {
            assert_eq!(msg.count().as_inner(), before);
        }
    }
}

#[test]
fn counter_wraps_after_the_largest_value() {
    let key = [1u8; 16];
    let mut counter = SequenceCounter::new();
    counter.set(SequenceCount::from_inner(u32::MAX));
    let frame = message_with(&[1]).encrypt(&key, &mut counter, PackingSource::Zero);
    assert_eq!(counter.current().as_inner(), 0);
    let msg = EncryptedCommand::decrypt(&key, frame, &mut counter);
    assert_eq!(counter.current().as_inner(), 1);
    assert_eq!(msg.count().as_inner(), u32::MAX);
}

#[test]
fn frame_holds_the_cipher_text_of_each_block() {
    let key: [u8; 16] = [0x42; 16];
    let data: Vec<u8> = (0u8..20).collect();
    let mut counter = SequenceCounter::new();
    counter.set(SequenceCount::from_inner(0x0102_0304));

    let mut plain = message_with(&data).with_count(SequenceCount::from_inner(0x0102_0304));
    plain.set_packing(PackingSource::Zero);
    plain.calculate_checksum();
    assert_eq!(plain.len(), 33);
    let cipher = aes::Aes128::new(&GenericArray::from(key));
    let mut expected = vec![STX, 0, 33, STEX];
    for chunk in plain.encrypt_data().chunks(16) {
        let mut block = [0u8; 16];
        block.copy_from_slice(chunk);
        let mut out = GenericArray::from(block);
        cipher.encrypt_block(&mut out);
        assert_ne!(&out[..], chunk);
        expected.extend_from_slice(&out);
    }
    let crc = reference_crc(&expected[1..]);
    expected.push((crc & 0xff) as u8);
    expected.push((crc >> 8) as u8);
    let mut wire = vec![STX];
    for &byte in &expected[1..] {
        wire.push(byte);
        if byte == STX {
            wire.push(byte);
        }
    }

    let frame = message_with(&data).encrypt(&key, &mut counter, PackingSource::Zero);
    assert_eq!(&frame.as_bytes()[..wire.len()], &wire[..]);
    assert!(frame.as_bytes()[wire.len()..].iter().all(|&b| b == 0));

    let mut unstuffed = frame.clone();
    assert_eq!(unstuffed.unstuff_encrypted_data(), Ok(expected.len()));
    assert_eq!(&unstuffed.as_bytes()[..expected.len()], &expected[..]);
    assert_eq!(unstuffed.verify_checksum(), Ok(()));
    assert_eq!(unstuffed.data()[0], STEX);

    // the blocks are independent: decrypting the second alone gives its plain text
    let mut second = [0u8; 16];
    second.copy_from_slice(&unstuffed.encrypted_data()[16..32]);
    let mut block = GenericArray::from(second);
    cipher.decrypt_block(&mut block);
    assert_eq!(&block[..], &plain.encrypt_data()[16..32]);
}

#[test]
fn decrypting_under_another_key_does_not_give_the_data() {
    let mut counter = SequenceCounter::new();
    let data = [0x11u8; 25];
    let frame = message_with(&data).encrypt(&[1u8; 16], &mut counter, PackingSource::Zero);
    let msg = EncryptedCommand::decrypt(&[2u8; 16], frame, &mut counter);
    assert_ne!(&msg.as_bytes()[6..31], &data[..]);
}

#[test]
fn message_with_too_much_data_gives_a_frame_that_carries_none() {
    let key = [0u8; 16];
    let mut counter = SequenceCounter::new();
    let mut msg = EncryptedCommand::new();
    msg.set_data_len(250);
    let frame = msg.encrypt(&key, &mut counter, PackingSource::Zero);
    assert_eq!(counter.current().as_inner(), 1);
    let mut empty = WrappedEncryptedMessage::new();
    empty.calculate_checksum();
    assert_eq!(empty.stuff_encrypted_data().is_ok(), true);
    assert_eq!(frame, empty);
}

#[test]
fn decrypt_takes_a_frame_that_cannot_be_unstuffed_as_it_is() {
    let key = [3u8; 16];
    let mut counter = SequenceCounter::new();
    // no start byte: unstuffing fails, and the frame declares four data bytes
    let frame = WrappedEncryptedMessage::from_bytes(&[0x00, 0x01, 0x04, STEX, 1, 2, 3]);
    let msg = EncryptedCommand::decrypt(&key, frame, &mut counter);
    assert_eq!(counter.current().as_inner(), 1);
    assert_eq!(msg, EncryptedCommand::new());
}

#[test]
fn decrypt_of_a_frame_of_the_wrong_size_decrypts_nothing() {
    let key = [3u8; 16];
    let mut counter = SequenceCounter::new();
    let mut frame = WrappedEncryptedMessage::new();
    assert_eq!(frame.set_encrypted_data(&[0x5A; 20]), Ok(()));
    frame.calculate_checksum();
    assert!(frame.stuff_encrypted_data().is_ok());
    let msg = EncryptedCommand::decrypt(&key, frame, &mut counter);
    let mut expected = EncryptedCommand::new();
    expected.set_data_len(21 - 8);
    assert_eq!(msg, expected);
    assert_eq!(counter.current().as_inner(), 1);
}

#[test]
fn decrypt_of_an_empty_frame_gives_a_new_message() {
    let mut counter = SequenceCounter::new();
    let msg = EncryptedCommand::decrypt(&[0u8; 16], WrappedEncryptedMessage::new(), &mut counter);
    assert_eq!(msg, EncryptedCommand::new());
}

#[test]
fn set_encrypt_data_stores_all_behind_the_marker() {
    let mut msg = EncryptedCommand::new();
    let plain: Vec<u8> = (0u8..16).collect();
    assert_eq!(msg.set_encrypt_data(&plain), Ok(()));
    assert_eq!(&msg.as_bytes()[1..17], &plain[..]);
    let mut other = EncryptedCommand::new();
    assert_eq!(other.set_encrypt_data(&[1, 2, 3]), Err(Error::InvalidLength((3, 16))));
    assert_eq!(other, EncryptedCommand::new());
}

#[test]
fn zeroize_wipes_the_whole_buffer() {
    let mut msg = message_with(&[0xAB; 100]);
    msg.set_packing(PackingSource::Entropy);
    msg.calculate_checksum();
    msg.zeroize();
    assert_eq!(msg.data_len(), 0);
    assert!(msg.as_bytes().iter().all(|&b| b == 0));
}
