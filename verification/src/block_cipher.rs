//! AES-128 over whole blocks, each block on its own: no chaining and no
//! initialisation vector. The protocol asks for this mode; the packing and the
//! sequence count of every message are what keep equal commands from giving
//! equal cipher text.

use aes::cipher::{BlockDecrypt, BlockEncrypt, KeyInit};
use vstd::prelude::*;

use crate::error::Error;
use crate::len::AES;

verus! {

/// Secret key of the channel.
pub type AesKey = [u8; 16];

/// The cipher text of one block under a key, as the `aes` crate computes it.
pub uninterp spec fn aes128_encrypt(key: Seq<u8>, block: Seq<u8>) -> Seq<u8>;

/// The plain text of one block under a key, as the `aes` crate computes it.
pub uninterp spec fn aes128_decrypt(key: Seq<u8>, block: Seq<u8>) -> Seq<u8>;

/// Calls `Aes128::new` and `BlockEncrypt::encrypt_block_b2b` of the `aes`
/// crate on one block. Believed, not proved: the result is a function of key
/// and block, and decrypting it under the same key gives the block back.
#[verifier::external_body]
fn aes128_encrypt_block(key: &AesKey, block: &[u8; 16]) -> (out: [u8; 16])
    ensures
        out@ == aes128_encrypt(key@, block@),
        aes128_decrypt(key@, out@) == block@,
{
    let mut out = [0u8; 16];
    aes::Aes128::new(key.into()).encrypt_block_b2b(block.into(), (&mut out).into());
    out
}

/// Calls `Aes128::new` and `BlockDecrypt::decrypt_block_b2b` of the `aes`
/// crate on one block. Believed, not proved: the result is a function of key
/// and block, and encrypting it under the same key gives the block back.
#[verifier::external_body]
fn aes128_decrypt_block(key: &AesKey, block: &[u8; 16]) -> (out: [u8; 16])
    ensures
        out@ == aes128_decrypt(key@, block@),
        aes128_encrypt(key@, out@) == block@,
{
    let mut out = [0u8; 16];
    aes::Aes128::new(key.into()).decrypt_block_b2b(block.into(), (&mut out).into());
    out
}

/// The block of `data` that byte `j` lies in.
pub open spec fn block_of(data: Seq<u8>, j: int) -> Seq<u8> {
    data.subrange(16 * (j / 16), 16 * (j / 16) + 16)
}

/// Block-by-block encryption of `plain`, whose length is a multiple of the
/// block length.
pub open spec fn spec_encrypt_blocks(key: Seq<u8>, plain: Seq<u8>) -> Seq<u8> {
    Seq::new(plain.len(), |j: int| aes128_encrypt(key, block_of(plain, j))[j % 16])
}

/// Block-by-block decryption of `cipher`, whose length is a multiple of the
/// block length.
pub open spec fn spec_decrypt_blocks(key: Seq<u8>, cipher: Seq<u8>) -> Seq<u8> {
    Seq::new(cipher.len(), |j: int| aes128_decrypt(key, block_of(cipher, j))[j % 16])
}

/// Copies the sixteen bytes of `data` that start at `offset`.
fn block_at(data: &[u8], offset: usize) -> (block: [u8; 16])
    requires
        offset + 16 <= data.len(),
    ensures
        block@ == data@.subrange(offset as int, offset + 16),
{
    let mut block: [u8; 16] = [0u8; 16];
    let mut k: usize = 0;
    while k < 16
        invariant
            k <= 16,
            offset + 16 <= data.len(),
            forall|i: int| 0 <= i < k ==> block@[i] == data@[offset + i],
        decreases 16 - k,
    {
        block[k] = data[offset + k];
        k += 1;
    }
    assert(block@ =~= data@.subrange(offset as int, offset + 16));
    block
}

/// Encrypts `plain` block by block. Fails, with the length found and the
/// block length, where `plain` is not a whole number of blocks.
pub fn aes_encrypt_blocks(key: &AesKey, plain: &[u8]) -> (res: Result<Vec<u8>, Error>)
    ensures
        match res {
            Ok(cipher) => {
                &&& plain.len() % 16 == 0
                &&& cipher@ == spec_encrypt_blocks(key@, plain@)
                &&& spec_decrypt_blocks(key@, cipher@) == plain@
            },
            Err(e) => plain.len() % 16 != 0 && e == Error::InvalidLength((plain.len(), AES)),
        },
{
    if plain.len() % AES != 0 {
        return Err(Error::InvalidLength((plain.len(), AES)));
    }
    let mut cipher: Vec<u8> = Vec::new();
    let mut offset: usize = 0;
    while offset < plain.len()
        invariant
            offset <= plain.len(),
            offset % 16 == 0,
            plain.len() % 16 == 0,
            cipher.len() == offset,
            forall|j: int|
                0 <= j < offset ==> cipher@[j] == aes128_encrypt(key@, block_of(plain@, j))[j % 16],
            forall|j: int|
                0 <= j < offset ==> aes128_decrypt(key@, block_of(cipher@, j))[j % 16]
                    == plain@[j],
        decreases plain.len() - offset,
    {
        let block = block_at(plain, offset);
        let out = aes128_encrypt_block(key, &block);
        let ghost before = cipher@;
        let mut k: usize = 0;
        while k < 16
            invariant
                k <= 16,
                cipher@ == before + out@.take(k as int),
            decreases 16 - k,
        {
            cipher.push(out[k]);
            assert(cipher@ =~= before + out@.take(k + 1));
            k += 1;
        }
        proof {
            assert(out@.take(16) =~= out@);
            assert forall|j: int| 0 <= j < offset + 16 implies cipher@[j] == aes128_encrypt(
                key@,
                block_of(plain@, j),
            )[j % 16] by {
                if j >= offset {
                    assert(j / 16 == offset / 16);
                    assert(block_of(plain@, j) =~= block@);
                }
            }
            assert forall|j: int| 0 <= j < offset + 16 implies aes128_decrypt(
                key@,
                block_of(cipher@, j),
            )[j % 16] == plain@[j] by {
                if j >= offset {
                    assert(j / 16 == offset / 16);
                    assert(block_of(cipher@, j) =~= out@);
                } else {
                    assert(block_of(cipher@, j) =~= block_of(before, j));
                }
            }
        }
        offset += 16;
    }
    assert(cipher@ =~= spec_encrypt_blocks(key@, plain@));
    assert(spec_decrypt_blocks(key@, cipher@) =~= plain@);
    Ok(cipher)
}

/// Decrypts `cipher` block by block. Fails, with the length found and the
/// block length, where `cipher` is not a whole number of blocks.
pub fn aes_decrypt_blocks(key: &AesKey, cipher: &[u8]) -> (res: Result<Vec<u8>, Error>)
    ensures
        match res {
            Ok(plain) => cipher.len() % 16 == 0 && plain@ == spec_decrypt_blocks(key@, cipher@),
            Err(e) => cipher.len() % 16 != 0 && e == Error::InvalidLength((cipher.len(), AES)),
        },
{
    if cipher.len() % AES != 0 {
        return Err(Error::InvalidLength((cipher.len(), AES)));
    }
    let mut plain: Vec<u8> = Vec::new();
    let mut offset: usize = 0;
    while offset < cipher.len()
        invariant
            offset <= cipher.len(),
            offset % 16 == 0,
            cipher.len() % 16 == 0,
            plain.len() == offset,
            forall|j: int|
                0 <= j < offset ==> plain@[j] == aes128_decrypt(key@, block_of(cipher@, j))[j % 16],
        decreases cipher.len() - offset,
    {
        let block = block_at(cipher, offset);
        let out = aes128_decrypt_block(key, &block);
        let ghost before = plain@;
        let mut k: usize = 0;
        while k < 16
            invariant
                k <= 16,
                plain@ == before + out@.take(k as int),
            decreases 16 - k,
        {
            plain.push(out[k]);
            assert(plain@ =~= before + out@.take(k + 1));
            k += 1;
        }
        proof {
            assert(out@.take(16) =~= out@);
            assert forall|j: int| 0 <= j < offset + 16 implies plain@[j] == aes128_decrypt(
                key@,
                block_of(cipher@, j),
            )[j % 16] by {
                if j >= offset {
                    assert(j / 16 == offset / 16);
                    assert(block_of(cipher@, j) =~= block@);
                }
            }
        }
        offset += 16;
    }
    assert(plain@ =~= spec_decrypt_blocks(key@, cipher@));
    Ok(plain)
}

} // verus!
