//! The primes below 256, smallest first.

use vstd::prelude::*;

use crate::primes::number_theory::{
    divides,
    has_tiny_factor,
    lemma_composite_has_tiny_factor,
    lemma_divides_transitive,
    lemma_small_divisor,
    spec_is_prime,
};

verus! {

/// Number of entries of the table.
pub const SMALL_PRIMES_LEN: usize = 54;

/// The table that candidates are divided by before the costly tests.
pub const SMALL_PRIMES: [u16; 54] = [
    2, 3, 5, 7, 11, 13, 17, 19, 23, 29, 31, 37, 41, 43, 47, 53, 59, 61, 67, 71, 73, 79, 83, 89,
    97, 101, 103, 107, 109, 113, 127, 131, 137, 139, 149, 151, 157, 163, 167, 173, 179, 181, 191,
    193, 197, 199, 211, 223, 227, 229, 233, 239, 241, 251,
];

/// Every entry of the table is at least two.
pub proof fn lemma_small_primes_bounds(i: int)
    requires
        0 <= i < SMALL_PRIMES_LEN,
    ensures
        2 <= SMALL_PRIMES[i] <= 251,
{
}

/// Whether `n` is an entry of the table.
pub open spec fn spec_in_table(n: u64) -> bool {
    exists|i: int| 0 <= i < SMALL_PRIMES_LEN && #[trigger] SMALL_PRIMES[i] == n
}

/// Whether an entry of the table divides `n`.
pub open spec fn spec_has_small_factor(n: u64) -> bool {
    exists|i: int| 0 <= i < SMALL_PRIMES_LEN && n % (#[trigger] SMALL_PRIMES[i] as u64) == 0
}

/// The table holds every number from seventeen to 255 that none of the six
/// primes below seventeen divides.
proof fn lemma_table_is_complete(w: nat)
    requires
        17 <= w <= 255,
        !has_tiny_factor(w),
    ensures
        spec_in_table(w as u64),
{
    let v: u8 = w as u8;
    assert(v == 17 || v == 19 || v == 23 || v == 29 || v == 31 || v == 37 || v == 41 || v == 43
        || v == 47 || v == 53 || v == 59 || v == 61 || v == 67 || v == 71 || v == 73 || v == 79
        || v == 83 || v == 89 || v == 97 || v == 101 || v == 103 || v == 107 || v == 109 || v
        == 113 || v == 127 || v == 131 || v == 137 || v == 139 || v == 149 || v == 151 || v == 157
        || v == 163 || v == 167 || v == 173 || v == 179 || v == 181 || v == 191 || v == 193 || v
        == 197 || v == 199 || v == 211 || v == 223 || v == 227 || v == 229 || v == 233 || v == 239
        || v == 241 || v == 251) by (bit_vector)
        requires
            17 <= v,
            !(v % 2 == 0 || v % 3 == 0 || v % 5 == 0 || v % 7 == 0 || v % 11 == 0 || v % 13 == 0),
    ;
}

/// Every entry of the table is a prime.
pub proof fn lemma_table_entries_are_prime(i: int)
    requires
        0 <= i < SMALL_PRIMES_LEN,
    ensures
        spec_is_prime(SMALL_PRIMES[i] as nat),
{
    let n = SMALL_PRIMES[i] as nat;
    if n < 17 {
        assert(n == 2 || n == 3 || n == 5 || n == 7 || n == 11 || n == 13);
        assert forall|d: nat| 1 < d < n implies !#[trigger] divides(d, n) by {
            let small: u8 = n as u8;
            let below: u8 = d as u8;
            assert(small % below != 0) by (bit_vector)
                requires
                    small == 2 || small == 3 || small == 5 || small == 7 || small == 11 || small
                        == 13,
                    1 < below < small,
            ;
        }
    } else {
        assert(!has_tiny_factor(n));
        if !spec_is_prime(n) {
            lemma_composite_has_tiny_factor(n);
        }
    }
}

/// An entry of the table divides every number from two to 255.
pub proof fn lemma_small_number_has_table_factor(w: nat)
    requires
        2 <= w <= 255,
    ensures
        spec_has_small_factor(w as u64),
{
    if w % 2 == 0 {
        assert(SMALL_PRIMES[0] == 2);
    } else if w % 3 == 0 {
        assert(SMALL_PRIMES[1] == 3);
    } else if w % 5 == 0 {
        assert(SMALL_PRIMES[2] == 5);
    } else if w % 7 == 0 {
        assert(SMALL_PRIMES[3] == 7);
    } else if w % 11 == 0 {
        assert(SMALL_PRIMES[4] == 11);
    } else if w % 13 == 0 {
        assert(SMALL_PRIMES[5] == 13);
    } else {
        lemma_table_is_complete(w);
        let i = choose|i: int| 0 <= i < SMALL_PRIMES_LEN && #[trigger] SMALL_PRIMES[i] == w;
        vstd::arithmetic::div_mod::lemma_mod_self_0(w as int);
    }
}

/// A number that an entry of the table divides, and that is no entry itself,
/// is no prime.
pub proof fn lemma_small_factor_is_composite(n: u64)
    requires
        spec_has_small_factor(n),
        !spec_in_table(n),
    ensures
        !spec_is_prime(n as nat),
{
    let i = choose|i: int|
        0 <= i < SMALL_PRIMES_LEN && n % (#[trigger] SMALL_PRIMES[i] as u64) == 0;
    let q = SMALL_PRIMES[i] as nat;
    lemma_small_primes_bounds(i);
    if q > n {
        vstd::arithmetic::div_mod::lemma_small_mod(n as nat, q);
    } else {
        assert(divides(q, n as nat));
    }
}

/// A number from two up to the square of 256 that no entry of the table
/// divides is a prime.
pub proof fn lemma_no_small_factor_is_prime(n: u64)
    requires
        2 <= n < 65536,
        !spec_has_small_factor(n),
    ensures
        spec_is_prime(n as nat),
{
    if !spec_is_prime(n as nat) {
        let w = lemma_small_divisor(n as nat, 256);
        lemma_small_number_has_table_factor(w);
        let i = choose|i: int|
            0 <= i < SMALL_PRIMES_LEN && (w as u64) % (#[trigger] SMALL_PRIMES[i] as u64) == 0;
        lemma_small_primes_bounds(i);
        lemma_divides_transitive(SMALL_PRIMES[i] as nat, w, n as nat);
        assert(n % (SMALL_PRIMES[i] as u64) == 0);
    }
}

} // verus!
