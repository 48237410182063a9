//! Generator of probable primes for the key agreement: candidates from a
//! CSPRNG, sifted by trial division, the Fermat test and the Miller-Rabin test.

use num_bigint::BigUint;
use num_traits::cast::ToPrimitive;
use rand::distributions::uniform::{UniformInt, UniformSampler};
use rand_chacha::rand_core::{RngCore, SeedableRng};
use rand_chacha::ChaCha20Rng;
use vstd::arithmetic::power::pow;
use vstd::arithmetic::power2::pow2;
use vstd::prelude::*;

use crate::packing::{entropy, Seed};

pub mod number_theory;
pub mod small_primes;

use number_theory::{
    divides,
    lemma_fermat_little,
    lemma_one_stays,
    lemma_prime_is_strong_probable_prime,
    lemma_square_mod,
    spec_is_prime,
};
use small_primes::{
    lemma_no_small_factor_is_prime,
    lemma_small_factor_is_composite,
    lemma_table_entries_are_prime,
    spec_has_small_factor,
    spec_in_table,
    SMALL_PRIMES,
    SMALL_PRIMES_LEN,
};

verus! {

/// Rounds of the Fermat test and of the Miller-Rabin test.
pub const MILLER_RABIN_ROUNDS: usize = 16;

/// The ChaCha20 generator of the `rand_chacha` crate. Nothing is known of
/// what it holds.
#[verifier::external_type_specification]
#[verifier::external_body]
pub struct ExChaCha20Rng(rand_chacha::ChaCha20Rng);

/// The generator that a seed gives, before anything is drawn from it, as the
/// `rand_chacha` crate makes it.
pub uninterp spec fn chacha20_seeded(seed: Seq<u8>) -> ChaCha20Rng;

/// Calls `ChaCha20Rng::from_seed` of the `rand_chacha` crate. Believed, not
/// proved: the generator that comes back is a function of the seed.
#[verifier::external_body]
fn rng_from_seed(seed: Seed) -> (rng: ChaCha20Rng)
    ensures
        rng == chacha20_seeded(seed@),
{
    ChaCha20Rng::from_seed(seed)
}

/// Calls `RngCore::next_u64` of the `rand_chacha` crate. Nothing is claimed
/// of the number that comes back.
#[verifier::external_body]
fn rng_next_u64(rng: &mut ChaCha20Rng) -> u64 {
    rng.next_u64()
}

/// Calls `UniformInt::new_inclusive` and `UniformSampler::sample` of the
/// `rand` crate. Believed, not proved: the number drawn lies between the two
/// bounds, both included. The crate panics where the bounds cross, which the
/// precondition leaves out.
#[verifier::external_body]
fn gen_range(low: u64, high: u64, rng: &mut ChaCha20Rng) -> (drawn: u64)
    requires
        low <= high,
    ensures
        low <= drawn <= high,
{
    let uniform = UniformInt::<u64>::new_inclusive(low, high);
    uniform.sample(rng)
}

/// Calls `BigUint::modpow` of the `num-bigint` crate and `ToPrimitive::to_u64`
/// of the `num-traits` crate. Believed, not proved: the result is the power
/// reduced by the modulus, which always fits. The crate panics on a modulus of
/// zero, which the precondition leaves out.
#[verifier::external_body]
fn modpow(base: u64, exponent: u64, modulus: u64) -> (res: Option<u64>)
    requires
        modulus != 0,
    ensures
        res == Some((pow(base as int, exponent as nat) % (modulus as int)) as u64),
{
    BigUint::from(base).modpow(&BigUint::from(exponent), &BigUint::from(modulus)).to_u64()
}

/// What trial division by the table of small primes says of a candidate.
#[derive(Clone, Copy, Debug, PartialEq, Eq, Structural)]
pub enum TrialDivision {
    /// The candidate is an entry of the table.
    Prime,
    /// The candidate is no entry of the table, and one divides it.
    Composite,
    /// No entry of the table divides the candidate.
    Undecided,
}

/// The verdict of trial division on `n`.
pub open spec fn spec_trial_division(n: u64) -> TrialDivision {
    if spec_in_table(n) {
        TrialDivision::Prime
    } else if spec_has_small_factor(n) {
        TrialDivision::Composite
    } else {
        TrialDivision::Undecided
    }
}

/// The odd number that is left of `n` when every factor two is taken out;
/// zero for zero.
pub open spec fn spec_odd_part(n: nat) -> nat
    decreases n,
{
    if n == 0 || n % 2 == 1 {
        n
    } else {
        spec_odd_part(n / 2)
    }
}

/// How often two divides `n`; zero for zero.
pub open spec fn spec_two_exponent(n: nat) -> nat
    decreases n,
{
    if n == 0 || n % 2 == 1 {
        0
    } else {
        1 + spec_two_exponent(n / 2)
    }
}

/// Whether `n` passes the Fermat test to the base `a`: `a` to the power
/// `n - 1` leaves one when divided by `n`.
pub open spec fn spec_fermat_passes(n: u64, a: u64) -> bool {
    n > 0 && pow(a as int, (n - 1) as nat) % (n as int) == 1
}

/// Whether the odd number `n`, with `n - 1` written as `d` times two to the
/// `s`, is a strong probable prime to the base `a`: `a` to the `d` leaves one,
/// or `a` to the `d` times two to the `r` leaves `n - 1` for some `r` below
/// `s`.
pub open spec fn spec_strong_probable_prime(n: u64, d: u64, s: u64, a: u64) -> bool {
    ||| pow(a as int, d as nat) % (n as int) == 1
    ||| exists|r: nat|
        r < s && #[trigger] pow(a as int, d as nat * pow2(r)) % (n as int) == n - 1
}

/// Whether `n` passes one round of the Miller-Rabin test to the base `a`: it
/// is odd, at least three, and a strong probable prime to that base.
pub open spec fn spec_miller_rabin_passes(n: u64, a: u64) -> bool {
    &&& n >= 3
    &&& n % 2 == 1
    &&& spec_strong_probable_prime(
        n,
        spec_odd_part((n - 1) as nat) as u64,
        spec_two_exponent((n - 1) as nat) as u64,
        a,
    )
}

/// Whether some base of the Fermat test shows `n` to be composite.
pub open spec fn spec_has_fermat_witness(n: u64) -> bool {
    exists|a: u64| 2 <= a <= n - 2 && !#[trigger] spec_fermat_passes(n, a)
}

/// Whether some base of the Miller-Rabin test shows `n` to be composite.
pub open spec fn spec_has_miller_rabin_witness(n: u64) -> bool {
    exists|a: u64| 2 <= a <= n - 1 && !#[trigger] spec_miller_rabin_passes(n, a)
}

/// Whether the sieve in front of the random tests lets `n` through: `n` is
/// not zero, is odd or two, and is a small prime or has no small factor.
pub open spec fn spec_survives_sieve(n: u64) -> bool {
    &&& n != 0
    &&& (n % 2 == 1 || n == 2)
    &&& spec_trial_division(n) != TrialDivision::Composite
}

/// Whether `n` passes the Fermat test to some base from two to `n - 2`.
pub open spec fn spec_passes_fermat_to_some_base(n: u64) -> bool {
    exists|a: u64| 2 <= a <= n - 2 && #[trigger] spec_fermat_passes(n, a)
}

/// Whether `n` is a number that the three stages can let through: it is at
/// least two and survives the sieve, and it is a small prime or passes the
/// Fermat test to some base of the range. The Miller-Rabin test adds nothing
/// to this, since every odd number passes it to the base `n - 1`; what it
/// adds is said of the bases drawn, where they are known.
pub open spec fn spec_can_be_accepted(n: u64) -> bool {
    &&& n >= 2
    &&& spec_survives_sieve(n)
    &&& spec_in_table(n) || spec_passes_fermat_to_some_base(n)
}

/// Whether `n` passes a round of the Fermat test to each of `bases`.
pub open spec fn spec_fermat_all(n: u64, bases: Seq<u64>) -> bool {
    forall|i: int| 0 <= i < bases.len() ==> spec_fermat_passes(n, #[trigger] bases[i])
}

/// Whether `n` passes a round of the Miller-Rabin test to each of `bases`.
pub open spec fn spec_miller_rabin_all(n: u64, bases: Seq<u64>) -> bool {
    forall|i: int| 0 <= i < bases.len() ==> spec_miller_rabin_passes(n, #[trigger] bases[i])
}

/// Whether every one of `bases` lies from `low` to `high`.
pub open spec fn spec_bases_within(bases: Seq<u64>, low: u64, high: u64) -> bool {
    forall|i: int| 0 <= i < bases.len() ==> low <= #[trigger] bases[i] <= high
}

/// The verdict of the Fermat test on `n` with the bases of its rounds: `n` is
/// at least four, there is a base for each round, and `n` passes to each.
pub open spec fn spec_fermat_with(n: u64, bases: Seq<u64>) -> bool {
    &&& n >= 4
    &&& bases.len() == MILLER_RABIN_ROUNDS
    &&& spec_fermat_all(n, bases)
}

/// The verdict of the Miller-Rabin test on `n` with the bases of its rounds:
/// `n` is two, or it is odd, there is a base for each round, and `n` passes
/// to each.
pub open spec fn spec_miller_rabin_with(n: u64, bases: Seq<u64>) -> bool {
    n == 2 || {
        &&& n >= 3
        &&& n % 2 == 1
        &&& bases.len() == MILLER_RABIN_ROUNDS
        &&& spec_miller_rabin_all(n, bases)
    }
}

/// The verdict on `n` with the bases of both tests: `n` goes through the
/// sieve and is not one, and it is an entry of the table of small primes or
/// passes the Fermat test to `fermat_bases` and the Miller-Rabin test to
/// `miller_rabin_bases`.
pub open spec fn spec_is_prime_with(
    n: u64,
    fermat_bases: Seq<u64>,
    miller_rabin_bases: Seq<u64>,
) -> bool {
    &&& spec_survives_sieve(n)
    &&& n != 1
    &&& spec_in_table(n) || (spec_fermat_with(n, fermat_bases) && spec_miller_rabin_with(
        n,
        miller_rabin_bases,
    ))
}

/// The range that the bases of the Fermat test are drawn from: two to
/// `n - 2`, and none below four.
pub open spec fn spec_fermat_range(n: u64) -> Option<(u64, u64)> {
    if n >= 4 {
        Some((2u64, (n - 2) as u64))
    } else {
        None
    }
}

/// The range that the bases of the Miller-Rabin test are drawn from: two to
/// `n - 1`, and none below three.
pub open spec fn spec_miller_rabin_range(n: u64) -> Option<(u64, u64)> {
    if n >= 3 {
        Some((2u64, (n - 1) as u64))
    } else {
        None
    }
}

/// Generator of probable primes.
pub struct Generator {
    seed: Seed,
    rng: ChaCha20Rng,
}

impl View for Generator {
    type V = Seq<u8>;

    /// The seed that the generator was last given.
    closed spec fn view(&self) -> Seq<u8> {
        self.seed@
    }
}

impl Generator {
    /// The state of the stream that candidates and bases are drawn from.
    pub closed spec fn spec_rng(&self) -> ChaCha20Rng {
        self.rng
    }

    /// Creates a generator from `seed`, which should come from a source of
    /// high-grade entropy. Its stream is the one that the seed gives, with
    /// nothing drawn yet.
    pub fn from_seed(seed: Seed) -> (generator: Self)
        ensures
            generator@ == seed@,
            generator.spec_rng() == chacha20_seeded(seed@),
    {
        Generator { seed, rng: rng_from_seed(seed) }
    }

    /// Creates a generator from a seed that the operating system gives. Its
    /// stream is the one that this seed gives, with nothing drawn yet.
    pub fn from_entropy() -> (generator: Self)
        ensures
            generator@.len() == 32,
            generator.spec_rng() == chacha20_seeded(generator@),
    {
        let bytes = entropy(32);
        let mut seed: Seed = [0u8; 32];
        let mut i: usize = 0;
        while i < 32
            invariant
                i <= 32,
                bytes@.len() == 32,
            decreases 32 - i,
        {
            seed[i] = bytes[i];
            i += 1;
        }
        Generator { seed, rng: rng_from_seed(seed) }
    }

    /// Gets the seed that the generator was last given.
    pub fn seed(&self) -> (seed: Seed)
        ensures
            seed@ == self@,
    {
        self.seed
    }

    /// Sets the seed to a new value, and starts the stream of candidates
    /// again from it: the generator is then as one made from that seed.
    pub fn set_seed(&mut self, seed: Seed)
        ensures
            final(self)@ == seed@,
            final(self).spec_rng() == chacha20_seeded(seed@),
    {
        self.seed = seed;
        self.rng = rng_from_seed(seed);
    }

    /// Tells whether `n` is even.
    pub fn is_even(n: u64) -> (even: bool)
        ensures
            even == (n % 2 == 0),
    {
        n % 2 == 0
    }

    /// Tells whether `n` is odd.
    pub fn is_odd(n: u64) -> (odd: bool)
        ensures
            odd == (n % 2 == 1),
    {
        !Self::is_even(n)
    }

    /// Divides the candidate by the entries of the table of small primes. An
    /// entry is a prime, and a number that an entry divides is none. Of the
    /// numbers that no entry divides, those from two up to the square of 256
    /// are primes, and nothing is known of the larger ones.
    pub fn div_small_primes(candidate: u64) -> (verdict: TrialDivision)
        ensures
            verdict == spec_trial_division(candidate),
            verdict == TrialDivision::Prime ==> spec_is_prime(candidate as nat),
            verdict == TrialDivision::Composite ==> !spec_is_prime(candidate as nat),
            verdict == TrialDivision::Undecided && 2 <= candidate < 65536 ==> spec_is_prime(
                candidate as nat,
            ),
    {
        let mut divisible: bool = false;
        let mut i: usize = 0;
        while i < SMALL_PRIMES_LEN
            invariant
                i <= SMALL_PRIMES_LEN,
                forall|k: int| 0 <= k < i ==> #[trigger] SMALL_PRIMES[k] != candidate,
                divisible == (exists|k: int|
                    0 <= k < i && candidate % (#[trigger] SMALL_PRIMES[k] as u64) == 0),
            decreases SMALL_PRIMES_LEN - i,
        {
            let p: u64 = SMALL_PRIMES[i] as u64;
            proof {
                small_primes::lemma_small_primes_bounds(i as int);
            }
            if candidate == p {
                proof {
                    lemma_table_entries_are_prime(i as int);
                }
                return TrialDivision::Prime;
            }
            if candidate % p == 0 {
                divisible = true;
            }
            i += 1;
        }
        if divisible {
            proof {
                lemma_small_factor_is_composite(candidate);
            }
            TrialDivision::Composite
        } else {
            proof {
                if 2 <= candidate < 65536 {
                    lemma_no_small_factor_is_prime(candidate);
                }
            }
            TrialDivision::Undecided
        }
    }

    /// Writes `n - 1` as an odd number times a power of two, and returns the
    /// odd number and the exponent.
    pub fn rewrite(n: u64) -> (ds: (u64, u64))
        requires
            n >= 2,
        ensures
            ds.0 == spec_odd_part((n - 1) as nat),
            ds.1 == spec_two_exponent((n - 1) as nat),
            ds.0 % 2 == 1,
            ds.0 * pow2(ds.1 as nat) == n - 1,
            ds.1 < 64,
    {
        let mut s: u64 = 0;
        let mut d: u64 = n - 1;
        proof {
            vstd::arithmetic::power2::lemma2_to64();
        }
        while Self::is_even(d)
            invariant
                d >= 1,
                s < 64,
                d * pow2(s as nat) == n - 1,
                spec_odd_part((n - 1) as nat) == spec_odd_part(d as nat),
                spec_two_exponent((n - 1) as nat) == s + spec_two_exponent(d as nat),
            decreases d,
        {
            proof {
                vstd::arithmetic::power2::lemma_pow2_unfold((s + 1) as nat);
                assert((d / 2) * (2 * pow2(s as nat)) == d * pow2(s as nat)) by (nonlinear_arith)
                    requires
                        d % 2 == 0,
                ;
                if s + 1 >= 64 {
                    vstd::arithmetic::power2::lemma2_to64_rest();
                    if s + 1 > 64 {
                        vstd::arithmetic::power2::lemma_pow2_strictly_increases(
                            64,
                            (s + 1) as nat,
                        );
                    }
                    assert((d / 2) * pow2((s + 1) as nat) >= pow2((s + 1) as nat))
                        by (nonlinear_arith)
                        requires
                            d / 2 >= 1,
                    ;
                }
            }
            d = d / 2;
            s = s + 1;
        }
        (d, s)
    }
    /// Runs one round of the Fermat test on `candidate` to the base `a`.
    pub fn fermat_round(candidate: u64, a: u64) -> (passes: bool)
        ensures
            passes == spec_fermat_passes(candidate, a),
    {
        if candidate == 0 {
            return false;
        }
        match modpow(a, candidate - 1, candidate) {
            Some(x) => x == 1,
            None => false,
        }
    }

    /// Runs one round of the Miller-Rabin test to the base `a` on the odd
    /// number `candidate`, for which `candidate - 1` is `d` times two to the
    /// `s`.
    fn strong_probable_prime(candidate: u64, d: u64, s: u64, a: u64) -> (passes: bool)
        requires
            candidate >= 3,
            s < 64,
        ensures
            passes == spec_strong_probable_prime(candidate, d, s, a),
    {
        let n: u64 = candidate;
        let x0: u64 = match modpow(a, d, n) {
            Some(x) => x,
            None => 1,
        };
        proof {
            vstd::arithmetic::power2::lemma2_to64();
            assert(d as nat * pow2(0) == d as nat);
        }
        if x0 == 1 {
            return true;
        }
        if x0 == n - 1 {
            return s > 0;
        }
        let mut x: u64 = x0;
        let mut j: u64 = 0;
        while j + 1 < s
            invariant
                n == candidate,
                n >= 3,
                j < 64,
                s < 64,
                x < n,
                x == pow(a as int, d as nat * pow2(j as nat)) % (n as int),
                pow(a as int, d as nat) % (n as int) != 1,
                forall|r: nat|
                    r <= j ==> #[trigger] pow(a as int, d as nat * pow2(r)) % (n as int) != n - 1,
            decreases s - j,
        {
            let ghost before = d as nat * pow2(j as nat);
            let next: u64 = match modpow(x, 2, n) {
                Some(y) => y,
                None => 1,
            };
            proof {
                lemma_square_mod(a as int, before, n as int);
                vstd::arithmetic::power2::lemma_pow2_unfold((j + 1) as nat);
                assert(before * 2 == d as nat * pow2((j + 1) as nat)) by (nonlinear_arith)
                    requires
                        before == d as nat * pow2(j as nat),
                        pow2((j + 1) as nat) == 2 * pow2(j as nat),
                ;
                assert(next == pow(a as int, d as nat * pow2((j + 1) as nat)) % (n as int));
            }
            x = next;
            j = j + 1;
            if x == 1 {
                proof {
                    assert forall|r: nat| r < s implies #[trigger] pow(
                        a as int,
                        d as nat * pow2(r),
                    ) % (n as int) != n - 1 by {
                        if r >= j {
                            lemma_one_stays(a as int, d as nat, n as int, j as nat, r);
                        }
                    }
                }
                return false;
            }
            if x == n - 1 {
                return true;
            }
        }
        proof {
            assert forall|r: nat| r < s implies #[trigger] pow(a as int, d as nat * pow2(r)) % (
            n as int) != n - 1 by {
                assert(r <= j);
            }
        }
        false
    }

    /// Runs one round of the Miller-Rabin test on `candidate` to the base `a`.
    /// A candidate that is even or below three does not pass.
    pub fn miller_rabin_round(candidate: u64, a: u64) -> (passes: bool)
        ensures
            passes == spec_miller_rabin_passes(candidate, a),
    {
        if candidate < 3 || Self::is_even(candidate) {
            return false;
        }
        let (d, s) = Self::rewrite(candidate);
        Self::strong_probable_prime(candidate, d, s, a)
    }

    /// Gives the range that the bases of the Fermat test are drawn from.
    pub fn fermat_range(candidate: u64) -> (range: Option<(u64, u64)>)
        ensures
            range == spec_fermat_range(candidate),
    {
        if candidate >= 4 {
            Some((2, candidate - 2))
        } else {
            None
        }
    }

    /// Gives the range that the bases of the Miller-Rabin test are drawn from.
    pub fn miller_rabin_range(candidate: u64) -> (range: Option<(u64, u64)>)
        ensures
            range == spec_miller_rabin_range(candidate),
    {
        if candidate >= 3 {
            Some((2, candidate - 1))
        } else {
            None
        }
    }

    /// Runs the Fermat test on `candidate` with the given bases, one for each
    /// round. The candidate passes where it is at least four, there are as
    /// many bases as rounds, and it passes the round to each.
    pub fn fermat_with(candidate: u64, bases: &[u64]) -> (passes: bool)
        ensures
            passes == spec_fermat_with(candidate, bases@),
    {
        if candidate < 4 || bases.len() != MILLER_RABIN_ROUNDS {
            return false;
        }
        let mut round: usize = 0;
        while round < bases.len()
            invariant
                round <= bases.len(),
                spec_fermat_all(candidate, bases@.take(round as int)),
            decreases bases.len() - round,
        {
            if !Self::fermat_round(candidate, bases[round]) {
                return false;
            }
            assert forall|i: int| 0 <= i < round + 1 implies spec_fermat_passes(
                candidate,
                #[trigger] bases@.take(round + 1)[i],
            ) by {
                if i < round {
                    assert(bases@.take(round as int)[i] == bases@[i]);
                }
            }
            round += 1;
        }
        assert(bases@.take(bases.len() as int) =~= bases@);
        true
    }

    /// Runs the Miller-Rabin test on `candidate` with the given bases, one for
    /// each round. Two passes. Another candidate passes where it is odd,
    /// there are as many bases as rounds, and it passes the round to each.
    pub fn miller_rabin_with(candidate: u64, bases: &[u64]) -> (passes: bool)
        ensures
            passes == spec_miller_rabin_with(candidate, bases@),
    {
        if candidate == 2 {
            return true;
        }
        if candidate < 3 || Self::is_even(candidate) || bases.len() != MILLER_RABIN_ROUNDS {
            return false;
        }
        let (d, s) = Self::rewrite(candidate);
        let mut round: usize = 0;
        while round < bases.len()
            invariant
                round <= bases.len(),
                candidate >= 3,
                candidate % 2 == 1,
                s < 64,
                d == spec_odd_part((candidate - 1) as nat),
                s == spec_two_exponent((candidate - 1) as nat),
                spec_miller_rabin_all(candidate, bases@.take(round as int)),
            decreases bases.len() - round,
        {
            if !Self::strong_probable_prime(candidate, d, s, bases[round]) {
                assert(!spec_miller_rabin_passes(candidate, bases@[round as int]));
                return false;
            }
            assert(spec_miller_rabin_passes(candidate, bases@[round as int]));
            assert forall|i: int| 0 <= i < round + 1 implies spec_miller_rabin_passes(
                candidate,
                #[trigger] bases@.take(round + 1)[i],
            ) by {
                if i < round {
                    assert(bases@.take(round as int)[i] == bases@[i]);
                }
            }
            round += 1;
        }
        assert(bases@.take(bases.len() as int) =~= bases@);
        true
    }

    /// Runs the Fermat test on `candidate`: for each round a base is drawn
    /// from `rng`, from the range of the test, and the drawing stops at the
    /// first round that the candidate does not pass. Returns the verdict and
    /// the bases drawn, in the order drawn.
    ///
    /// A candidate below four, for which there is no base, does not pass and
    /// draws none. Another candidate passes where a base was drawn for every
    /// round and it passed to each. One that does not pass failed to the last
    /// base drawn. A prime from five on always passes.
    pub fn fermat(candidate: u64, rng: &mut ChaCha20Rng) -> (drawn: (bool, Vec<u64>))
        ensures
            drawn.0 == spec_fermat_with(candidate, drawn.1@),
            candidate < 4 ==> drawn.1@.len() == 0,
            candidate >= 4 ==> {
                &&& 1 <= drawn.1@.len() <= MILLER_RABIN_ROUNDS
                &&& spec_bases_within(drawn.1@, 2, (candidate - 2) as u64)
                &&& spec_fermat_all(candidate, drawn.1@.drop_last())
                &&& !drawn.0 ==> !spec_fermat_passes(candidate, drawn.1@.last())
            },
            !drawn.0 && candidate >= 4 ==> spec_has_fermat_witness(candidate),
            drawn.0 ==> spec_passes_fermat_to_some_base(candidate),
            spec_is_prime(candidate as nat) && candidate >= 4 ==> drawn.0,
    {
        let mut bases: Vec<u64> = Vec::new();
        let (low, high) = match Self::fermat_range(candidate) {
            Some(range) => range,
            None => {
                return (false, bases);
            },
        };
        let mut round: usize = 0;
        while round < MILLER_RABIN_ROUNDS
            invariant
                candidate >= 4,
                low == 2,
                high == candidate - 2,
                round <= MILLER_RABIN_ROUNDS,
                bases@.len() == round,
                spec_bases_within(bases@, 2, (candidate - 2) as u64),
                spec_fermat_all(candidate, bases@),
            decreases MILLER_RABIN_ROUNDS - round,
        {
            let a: u64 = gen_range(low, high, rng);
            let ghost before = bases@;
            bases.push(a);
            assert(bases@.drop_last() =~= before);
            if !Self::fermat_round(candidate, a) {
                proof {
                    if spec_is_prime(candidate as nat) {
                        vstd::arithmetic::div_mod::lemma_small_mod(a as nat, candidate as nat);
                        lemma_fermat_little(candidate as nat, a as nat);
                    }
                    assert(!spec_fermat_passes(candidate, bases@[round as int]));
                }
                return (false, bases);
            }
            round += 1;
        }
        proof {
            assert(spec_fermat_passes(candidate, bases@[0]));
            assert forall|i: int| 0 <= i < bases@.drop_last().len() implies spec_fermat_passes(
                candidate,
                #[trigger] bases@.drop_last()[i],
            ) by {
                assert(bases@.drop_last()[i] == bases@[i]);
            }
        }
        (true, bases)
    }

    /// Runs the Miller-Rabin test on `candidate`: for each round a base is
    /// drawn from `rng`, from the range of the test, and the drawing stops at
    /// the first round that the candidate does not pass. Returns the verdict
    /// and the bases drawn, in the order drawn.
    ///
    /// Two passes, and another candidate that is even or below three does
    /// not; for these no base is drawn. An odd candidate passes where a base
    /// was drawn for every round and it passed to each. One that does not
    /// pass failed to the last base drawn. A prime always passes.
    pub fn miller_rabin(candidate: u64, rng: &mut ChaCha20Rng) -> (drawn: (bool, Vec<u64>))
        ensures
            drawn.0 == spec_miller_rabin_with(candidate, drawn.1@),
            candidate < 3 || candidate % 2 == 0 ==> drawn.1@.len() == 0,
            candidate >= 3 && candidate % 2 == 1 ==> {
                &&& 1 <= drawn.1@.len() <= MILLER_RABIN_ROUNDS
                &&& spec_bases_within(drawn.1@, 2, (candidate - 1) as u64)
                &&& spec_miller_rabin_all(candidate, drawn.1@.drop_last())
                &&& !drawn.0 ==> !spec_miller_rabin_passes(candidate, drawn.1@.last())
            },
            !drawn.0 && candidate >= 3 && candidate % 2 == 1 ==> spec_has_miller_rabin_witness(
                candidate,
            ),
            spec_is_prime(candidate as nat) ==> drawn.0,
    {
        let mut bases: Vec<u64> = Vec::new();
        if candidate == 2 {
            return (true, bases);
        }
        if Self::is_even(candidate) {
            proof {
                if candidate >= 3 {
                    assert(divides(2, candidate as nat));
                }
            }
            return (false, bases);
        }
        let (low, high) = match Self::miller_rabin_range(candidate) {
            Some(range) => range,
            None => {
                return (false, bases);
            },
        };
        let (d, s) = Self::rewrite(candidate);
        let mut round: usize = 0;
        while round < MILLER_RABIN_ROUNDS
            invariant
                candidate >= 3,
                candidate % 2 == 1,
                low == 2,
                high == candidate - 1,
                s < 64,
                d == spec_odd_part((candidate - 1) as nat),
                s == spec_two_exponent((candidate - 1) as nat),
                d * pow2(s as nat) == candidate - 1,
                round <= MILLER_RABIN_ROUNDS,
                bases@.len() == round,
                spec_bases_within(bases@, 2, (candidate - 1) as u64),
                spec_miller_rabin_all(candidate, bases@),
            decreases MILLER_RABIN_ROUNDS - round,
        {
            let a: u64 = gen_range(low, high, rng);
            let ghost before = bases@;
            bases.push(a);
            assert(bases@.drop_last() =~= before);
            if !Self::strong_probable_prime(candidate, d, s, a) {
                assert(!spec_miller_rabin_passes(candidate, a));
                proof {
                    if spec_is_prime(candidate as nat) {
                        vstd::arithmetic::div_mod::lemma_small_mod(a as nat, candidate as nat);
                        lemma_prime_is_strong_probable_prime(
                            candidate as nat,
                            d as nat,
                            s as nat,
                            a as nat,
                        );
                        if pow(a as int, d as nat) % (candidate as int) != 1 {
                            let r = choose|r: nat|
                                r < s as nat && #[trigger] pow(a as int, d as nat * pow2(r)) % (
                                candidate as int) == candidate - 1;
                            assert(r < s && pow(a as int, d as nat * pow2(r)) % (candidate as int)
                                == candidate - 1);
                        }
                        assert(false);
                    }
                    assert(!spec_miller_rabin_passes(candidate, bases@[round as int]));
                }
                return (false, bases);
            }
            assert(spec_miller_rabin_passes(candidate, a));
            round += 1;
        }
        proof {
            assert forall|i: int|
                0 <= i < bases@.drop_last().len() implies spec_miller_rabin_passes(
                candidate,
                #[trigger] bases@.drop_last()[i],
            ) by {
                assert(bases@.drop_last()[i] == bases@[i]);
            }
        }
        (true, bases)
    }

    /// Tells whether `candidate` is a probable prime to the given bases: it
    /// goes through the sieve, and it is an entry of the table of small
    /// primes or passes the Fermat test to `fermat_bases` and the
    /// Miller-Rabin test to `miller_rabin_bases`.
    pub fn is_prime_with(
        candidate: u64,
        fermat_bases: &[u64],
        miller_rabin_bases: &[u64],
    ) -> (prime: bool)
        ensures
            prime == spec_is_prime_with(candidate, fermat_bases@, miller_rabin_bases@),
    {
        if candidate == 0 {
            return false;
        }
        if !(Self::is_odd(candidate) || candidate == 2) {
            return false;
        }
        match Self::div_small_primes(candidate) {
            TrialDivision::Prime => {
                proof {
                    let i = choose|i: int|
                        0 <= i < SMALL_PRIMES_LEN && #[trigger] SMALL_PRIMES[i] == candidate;
                    small_primes::lemma_small_primes_bounds(i);
                }
                true
            },
            TrialDivision::Composite => false,
            TrialDivision::Undecided => {
                candidate != 1 && Self::fermat_with(candidate, fermat_bases)
                    && Self::miller_rabin_with(candidate, miller_rabin_bases)
            },
        }
    }

    /// Tells whether `candidate` is a probable prime, and returns the bases
    /// drawn from `rng` for the Fermat test and for the Miller-Rabin test, in
    /// the order drawn. Zero, and an even number other than two, is none. An
    /// entry of the table of small primes is one; another number that an
    /// entry divides is none. For these no base is drawn. What is left has to
    /// pass the Fermat test and then the Miller-Rabin test; for a candidate
    /// that fails the first, no base is drawn for the second.
    ///
    /// The verdict is the one that the bases drawn give. A prime is always
    /// found to be one, and below the square of 256 nothing else is.
    pub fn is_prime_drawn(candidate: u64, rng: &mut ChaCha20Rng) -> (drawn: (
        bool,
        Vec<u64>,
        Vec<u64>,
    ))
        ensures
            drawn.0 == spec_is_prime_with(candidate, drawn.1@, drawn.2@),
            spec_bases_within(drawn.1@, 2, (candidate - 2) as u64),
            spec_bases_within(drawn.2@, 2, (candidate - 1) as u64),
            drawn.1@.len() <= MILLER_RABIN_ROUNDS,
            drawn.2@.len() <= MILLER_RABIN_ROUNDS,
            drawn.2@.len() > 0 ==> spec_fermat_with(candidate, drawn.1@),
            spec_is_prime(candidate as nat) ==> drawn.0,
            candidate < 65536 ==> drawn.0 == spec_is_prime(candidate as nat),
            spec_in_table(candidate) ==> drawn.0,
            drawn.0 ==> spec_can_be_accepted(candidate),
            !drawn.0 ==> {
                ||| !spec_survives_sieve(candidate)
                ||| candidate == 1
                ||| spec_has_fermat_witness(candidate)
                ||| spec_has_miller_rabin_witness(candidate)
            },
    {
        let none: Vec<u64> = Vec::new();
        let nothing: Vec<u64> = Vec::new();
        if candidate == 0 {
            return (false, none, nothing);
        }
        if !(Self::is_odd(candidate) || candidate == 2) {
            assert(divides(2, candidate as nat));
            return (false, none, nothing);
        }
        match Self::div_small_primes(candidate) {
            TrialDivision::Prime => {
                proof {
                    let i = choose|i: int|
                        0 <= i < SMALL_PRIMES_LEN && #[trigger] SMALL_PRIMES[i] == candidate;
                    small_primes::lemma_small_primes_bounds(i);
                }
                (true, none, nothing)
            },
            TrialDivision::Composite => (false, none, nothing),
            TrialDivision::Undecided => {
                if candidate == 1 {
                    return (false, none, nothing);
                }
                assert(candidate >= 4) by {
                    assert(SMALL_PRIMES[0] == 2);
                    assert(SMALL_PRIMES[1] == 3);
                }
                let (fermat, fermat_bases) = Self::fermat(candidate, rng);
                if !fermat {
                    return (false, fermat_bases, nothing);
                }
                let (miller_rabin, miller_rabin_bases) = Self::miller_rabin(candidate, rng);
                (miller_rabin, fermat_bases, miller_rabin_bases)
            },
        }
    }

    /// Tells whether `candidate` is a probable prime. Zero, and an even
    /// number other than two, is none. An entry of the table of small primes
    /// is one; another number that an entry divides is none. What is left has
    /// to pass the Fermat test and the Miller-Rabin test, with bases drawn
    /// from `rng`.
    ///
    /// A prime is always found to be one, and below the square of 256 nothing
    /// else is. A larger composite number that no entry of the table divides
    /// is turned away unless every base drawn speaks for it, which the number
    /// of rounds makes unlikely, but which nothing here rules out.
    pub fn is_prime(candidate: u64, rng: &mut ChaCha20Rng) -> (prime: bool)
        ensures
            spec_is_prime(candidate as nat) ==> prime,
            candidate < 65536 ==> prime == spec_is_prime(candidate as nat),
            spec_in_table(candidate) ==> prime,
            prime ==> spec_can_be_accepted(candidate),
            !prime ==> {
                ||| !spec_survives_sieve(candidate)
                ||| candidate == 1
                ||| spec_has_fermat_witness(candidate)
                ||| spec_has_miller_rabin_witness(candidate)
            },
    {
        let (prime, _, _) = Self::is_prime_drawn(candidate, rng);
        prime
    }

    /// Draws candidates from `rng` until one is a probable prime, and returns
    /// it. Gives up after `attempts` candidates. What comes back survived the
    /// three stages; whether anything comes back lies with the draws.
    fn draw_prime(rng: &mut ChaCha20Rng, attempts: u64) -> (found: Option<u64>)
        ensures
            found matches Some(prime) ==> spec_can_be_accepted(prime),
            found matches Some(prime) ==> (prime < 65536 ==> spec_is_prime(prime as nat)),
            attempts == 0 ==> found.is_none(),
    {
        let mut left: u64 = attempts;
        while left > 0
            invariant
                left <= attempts,
            decreases left,
        {
            let candidate: u64 = rng_next_u64(rng);
            if Self::is_prime(candidate, rng) {
                return Some(candidate);
            }
            left -= 1;
        }
        None
    }

    /// Draws candidates until one is a probable prime, and returns it. Gives
    /// up after `attempts` candidates, so none are drawn where that is zero.
    /// What comes back survived the three stages; whether anything comes back
    /// lies with the draws. The seed stays as it is.
    pub fn new_prime_within(&mut self, attempts: u64) -> (found: Option<u64>)
        ensures
            final(self)@ == old(self)@,
            found matches Some(prime) ==> spec_can_be_accepted(prime),
            found matches Some(prime) ==> (prime < 65536 ==> spec_is_prime(prime as nat)),
            attempts == 0 ==> found.is_none(),
    {
        Self::draw_prime(&mut self.rng, attempts)
    }

    /// Generates a new prime: draws candidates until one is a probable prime.
    /// Nothing comes back only where none of `u64::MAX` candidates was one.
    /// What comes back survived the three stages: the sieve, the Fermat test
    /// and the Miller-Rabin test to the bases drawn. Below the square of 256
    /// that makes it a prime for certain. The seed stays as it is.
    pub fn new_prime(&mut self) -> (found: Option<u64>)
        ensures
            final(self)@ == old(self)@,
            found matches Some(prime) ==> spec_can_be_accepted(prime),
            found matches Some(prime) ==> (prime < 65536 ==> spec_is_prime(prime as nat)),
    {
        self.new_prime_within(u64::MAX)
    }
}

} // verus!
