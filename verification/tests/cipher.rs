use ssp::block_cipher::{aes_decrypt_blocks, aes_encrypt_blocks};
use ssp::error::Error;
use ssp::sequence::{SequenceCount, SequenceCounter};

const KEY: [u8; 16] = [
    0x00, 0x01, 0x02, 0x03, 0x04, 0x05, 0x06, 0x07, 0x08, 0x09, 0x0a, 0x0b, 0x0c, 0x0d, 0x0e, 0x0f,
];
const PLAIN: [u8; 16] = [
    0x00, 0x11, 0x22, 0x33, 0x44, 0x55, 0x66, 0x77, 0x88, 0x99, 0xaa, 0xbb, 0xcc, 0xdd, 0xee, 0xff,
];
const CIPHER: [u8; 16] = [
    0x69, 0xc4, 0xe0, 0xd8, 0x6a, 0x7b, 0x04, 0x30, 0xd8, 0xcd, 0xb7, 0x80, 0x70, 0xb4, 0xc5, 0x5a,
];
const ZERO_CIPHER: [u8; 16] = [
    0x66, 0xe9, 0x4b, 0xd4, 0xef, 0x8a, 0x2c, 0x3b, 0x88, 0x4c, 0xfa, 0x59, 0xca, 0x34, 0x2b, 0x2e,
];

#[test]
fn encrypts_the_standard_example() {
    assert_eq!(aes_encrypt_blocks(&KEY, &PLAIN), Ok(CIPHER.to_vec()));
    assert_eq!(aes_encrypt_blocks(&[0u8; 16], &[0u8; 16]), Ok(ZERO_CIPHER.to_vec()));
}

#[test]
fn decrypts_the_standard_example() {
    assert_eq!(aes_decrypt_blocks(&KEY, &CIPHER), Ok(PLAIN.to_vec()));
    assert_eq!(aes_decrypt_blocks(&[0u8; 16], &ZERO_CIPHER), Ok(vec![0u8; 16]));
}

#[test]
fn blocks_are_encrypted_one_by_one() {
    let mut plain = PLAIN.to_vec();
    plain.extend_from_slice(&PLAIN);
    plain.extend_from_slice(&[0u8; 16]);
    let cipher = aes_encrypt_blocks(&KEY, &plain).unwrap();
    assert_eq!(cipher.len(), 48);
    assert_eq!(&cipher[..16], &CIPHER);
    assert_eq!(&cipher[16..32], &CIPHER);
    assert_ne!(&cipher[32..], &CIPHER);
    assert_eq!(aes_decrypt_blocks(&KEY, &cipher), Ok(plain));
}

#[test]
fn nothing_to_encrypt_gives_nothing() {
    assert_eq!(aes_encrypt_blocks(&KEY, &[]), Ok(vec![]));
    assert_eq!(aes_decrypt_blocks(&KEY, &[]), Ok(vec![]));
}

#[test]
fn part_of_a_block_is_refused() {
    assert_eq!(aes_encrypt_blocks(&KEY, &[0u8; 15]), Err(Error::InvalidLength((15, 16))));
    assert_eq!(aes_encrypt_blocks(&KEY, &[0u8; 17]), Err(Error::InvalidLength((17, 16))));
    assert_eq!(aes_decrypt_blocks(&KEY, &[0u8; 1]), Err(Error::InvalidLength((1, 16))));
    assert_eq!(aes_decrypt_blocks(&KEY, &[0u8; 31]), Err(Error::InvalidLength((31, 16))));
}

#[test]
fn sequence_count_bytes() {
    let count = SequenceCount::from_inner(0x1234_5678);
    assert_eq!(count.to_le_bytes(), [0x78, 0x56, 0x34, 0x12]);
    assert_eq!(SequenceCount::from_le_bytes(&[0x78, 0x56, 0x34, 0x12]), count);
    assert_eq!(SequenceCount::new().as_inner(), 0);
    for value in [0u32, 1, 255, 256, 65_535, 65_536, u32::MAX - 1, u32::MAX] {
        let count = SequenceCount::from_inner(value);
        assert_eq!(SequenceCount::from_le_bytes(&count.to_le_bytes()).as_inner(), value);
    }
}

#[test]
fn sequence_counter_counts_and_wraps() {
    let mut counter = SequenceCounter::new();
    assert_eq!(counter.current().as_inner(), 0);
    assert_eq!(counter.increment().as_inner(), 1);
    assert_eq!(counter.increment().as_inner(), 2);
    assert_eq!(counter.current().as_inner(), 2);
    counter.set(SequenceCount::from_inner(u32::MAX));
    assert_eq!(counter.current().as_inner(), u32::MAX);
    assert_eq!(counter.increment().as_inner(), 0);
    assert_eq!(counter.current().as_inner(), 0);
}
