//! Where the pad bytes of an encrypted message come from.

use rand::RngCore;
use rand_chacha::rand_core::SeedableRng;
use rand_chacha::ChaCha20Rng;
use sha2::Digest;
use vstd::prelude::*;

verus! {

/// Seed of a CSPRNG.
pub type Seed = [u8; 32];

/// The source that fills the packing of an encrypted message.
#[derive(Clone, Copy, Debug, PartialEq, Eq, Structural)]
pub enum PackingSource {
    /// The thread's generator, seeded by the operating system.
    Entropy,
    /// A ChaCha20 generator seeded from the message itself, for targets
    /// without a source of entropy.
    Seeded,
    /// Zeros, for reproducible messages in tests.
    Zero,
}

/// The SHA-256 digest of `data`, as the `sha2` crate computes it.
pub uninterp spec fn sha256_digest(data: Seq<u8>) -> Seq<u8>;

/// The first `n` bytes that a ChaCha20 generator gives after it was seeded
/// with `seed`, as the `rand_chacha` crate computes them.
pub uninterp spec fn chacha20_keystream(seed: Seq<u8>, n: nat) -> Seq<u8>;

/// Calls `Sha256::digest` of the `sha2` crate. Believed, not proved: the
/// digest is a function of the data.
#[verifier::external_body]
fn sha256(data: &[u8]) -> (digest: Seed)
    ensures
        digest@ == sha256_digest(data@),
{
    sha2::Sha256::digest(data).into()
}

/// Calls `ChaCha20Rng::from_seed` and `RngCore::fill_bytes` of the
/// `rand_chacha` crate on a buffer of `n` bytes. Believed, not proved: the
/// bytes are a function of the seed and of their number.
#[verifier::external_body]
fn keystream(seed: &Seed, n: usize) -> (bytes: Vec<u8>)
    ensures
        bytes@.len() == n,
        bytes@ == chacha20_keystream(seed@, n as nat),
{
    let mut bytes = vec![0u8; n];
    ChaCha20Rng::from_seed(*seed).fill_bytes(&mut bytes);
    bytes
}

/// Calls `rand::thread_rng` and `RngCore::fill_bytes` of the `rand` crate on
/// a buffer of `n` bytes. Believed, not proved: as many bytes come back as
/// were asked for. Nothing is said of what they hold.
#[verifier::external_body]
pub(crate) fn entropy(n: usize) -> (bytes: Vec<u8>)
    ensures
        bytes@.len() == n,
{
    let mut bytes = vec![0u8; n];
    rand::thread_rng().fill_bytes(&mut bytes);
    bytes
}

/// The seed that a message gives: the digest of its bytes followed by its
/// count bytes.
pub open spec fn spec_seed(buf: Seq<u8>, count: Seq<u8>) -> Seq<u8> {
    sha256_digest(buf + count)
}

/// Whether `pad` is a packing of `n` bytes that `source` may give for a message
/// with the bytes `buf` and the count bytes `count`.
pub open spec fn spec_is_packing(
    source: PackingSource,
    buf: Seq<u8>,
    count: Seq<u8>,
    n: nat,
    pad: Seq<u8>,
) -> bool {
    &&& pad.len() == n
    &&& match source {
        PackingSource::Entropy => true,
        PackingSource::Seeded => pad == chacha20_keystream(spec_seed(buf, count), n),
        PackingSource::Zero => forall|i: int| 0 <= i < n ==> pad[i] == 0,
    }
}

/// Derives a seed from the bytes of a message and its count bytes.
pub fn seed(buf: &[u8], count: &[u8]) -> (seed: Seed)
    ensures
        seed@ == spec_seed(buf@, count@),
{
    let mut input: Vec<u8> = Vec::new();
    let mut i: usize = 0;
    while i < buf.len()
        invariant
            i <= buf.len(),
            input@ == buf@.take(i as int),
        decreases buf.len() - i,
    {
        input.push(buf[i]);
        assert(input@ =~= buf@.take(i + 1));
        i += 1;
    }
    assert(buf@.take(buf.len() as int) =~= buf@);
    let mut j: usize = 0;
    while j < count.len()
        invariant
            j <= count.len(),
            input@ == buf@ + count@.take(j as int),
        decreases count.len() - j,
    {
        input.push(count[j]);
        assert(input@ =~= buf@ + count@.take(j + 1));
        j += 1;
    }
    assert(count@.take(count.len() as int) =~= count@);
    sha256(input.as_slice())
}

/// Gives `n` zero bytes.
fn zeros(n: usize) -> (bytes: Vec<u8>)
    ensures
        bytes@.len() == n,
        forall|i: int| 0 <= i < n ==> bytes@[i] == 0,
{
    let mut bytes: Vec<u8> = Vec::new();
    let mut i: usize = 0;
    while i < n
        invariant
            i <= n,
            bytes@.len() == i,
            forall|k: int| 0 <= k < i ==> bytes@[k] == 0,
        decreases n - i,
    {
        bytes.push(0u8);
        i += 1;
    }
    bytes
}

impl PackingSource {
    /// Draws a packing of `n` bytes for a message with the bytes `buf` and the
    /// count bytes `count`.
    pub fn draw(&self, buf: &[u8], count: &[u8], n: usize) -> (pad: Vec<u8>)
        ensures
            spec_is_packing(*self, buf@, count@, n as nat, pad@),
    {
        match self {
            PackingSource::Entropy => entropy(n),
            PackingSource::Seeded => {
                let seed = seed(buf, count);
                keystream(&seed, n)
            },
            PackingSource::Zero => zeros(n),
        }
    }
}

} // verus!
