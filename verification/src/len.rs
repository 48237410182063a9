//! Lengths and byte positions of the fixed parts of plain and encrypted messages.

use vstd::prelude::*;

verus! {

/// Block length of the cipher, in bytes.
pub const AES: usize = 16;

/// Length of an AES-128 key, in bytes.
pub const AES_KEY: usize = 16;

/// Length of a CSPRNG seed, in bytes.
pub const SEED: usize = 32;

/// Fixed bytes of a transport frame: start byte, sequence/id byte, length byte
/// and two checksum bytes.
pub const METADATA: usize = 5;

/// Most data bytes that a transport frame can declare.
pub const MAX_DATA: usize = 255;

/// Longest transport frame before byte-stuffing.
pub const MAX_MESSAGE: usize = 260;

/// Capacity of the buffer behind a transport frame: the start byte, then every
/// other byte of the longest frame doubled.
pub const WRAPPED_ENCRYPTED_MESSAGE: usize = 519;

/// Fixed bytes of an encrypted message: start marker, length byte, four count
/// bytes and two checksum bytes.
pub const ENCRYPTED_METADATA: usize = 8;

/// Most data bytes that an encrypted message accepts. With this many the
/// encrypted message, start marker included, still fits in the data field of
/// one transport frame.
pub const MAX_ENCRYPTED_DATA: usize = 233;

/// Capacity of the buffer behind an encrypted message: enough for every value
/// that the length byte can take, with its packing.
pub const ENCRYPTED_COMMAND: usize = 273;

/// The smallest pad that brings `len` up to a multiple of the cipher's block
/// length.
pub open spec fn spec_aes_packing_len(len: nat) -> nat {
    if len % 16 == 0 {
        0
    } else {
        (16 - len % 16) as nat
    }
}

/// Computes the smallest pad that brings `len` up to a multiple of the
/// cipher's block length.
pub fn aes_packing_len(len: usize) -> (pad: usize)
    ensures
        pad == spec_aes_packing_len(len as nat),
{
    let diff: usize = len % AES;
    if diff == 0 {
        0
    } else {
        AES - diff
    }
}

/// The pad is shorter than a block and completes the last block.
pub proof fn lemma_aes_packing_len_aligns(len: nat)
    ensures
        spec_aes_packing_len(len) < 16,
        (len + spec_aes_packing_len(len)) % 16 == 0,
{
}

/// No pad shorter than the computed one completes the last block.
pub proof fn lemma_aes_packing_len_is_least(len: nat, pad: nat)
    requires
        (len + pad) % 16 == 0,
    ensures
        spec_aes_packing_len(len) <= pad,
{
    if pad < spec_aes_packing_len(len) {
        assert((len + pad) % 16 == len % 16 + pad);
    }
}

} // verus!
