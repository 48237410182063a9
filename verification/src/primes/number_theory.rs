//! The arithmetic behind the tests: why neither the Fermat test nor the
//! Miller-Rabin test ever turns a prime away.

use vstd::arithmetic::div_mod::{
    lemma_add_mod_noop,
    lemma_fundamental_div_mod,
    lemma_mod_multiples_basic,
    lemma_mul_mod_noop_left,
    lemma_small_mod,
};
use vstd::arithmetic::power::pow;
use vstd::arithmetic::power2::pow2;
use vstd::prelude::*;

verus! {

/// Whether `d` divides `n`.
pub open spec fn divides(d: nat, n: nat) -> bool {
    d != 0 && n % d == 0
}

/// Whether `n` is a prime: at least two, with no divisor between one and
/// itself.
pub open spec fn spec_is_prime(n: nat) -> bool {
    n >= 2 && forall|d: nat| 1 < d < n ==> !#[trigger] divides(d, n)
}

/// A prime that divides a product of a smaller positive number and another
/// number divides the other.
pub proof fn lemma_euclid_small(p: nat, a: nat, b: nat)
    requires
        spec_is_prime(p),
        0 < a < p,
        (a * b) % p == 0,
    ensures
        b % p == 0,
    decreases a,
{
    if a == 1 {
        assert(a * b == b) by (nonlinear_arith)
            requires
                a == 1,
        ;
    } else {
        assert(!divides(a, p));
        let q = p / a;
        let r = p % a;
        let k = (a * b) / p;
        lemma_fundamental_div_mod(p as int, a as int);
        lemma_fundamental_div_mod((a * b) as int, p as int);
        assert(0 < r < a);
        assert(a * b == p * k);
        assert(r * b == p * (b - q * k)) by (nonlinear_arith)
            requires
                p == a * q + r,
                a * b == p * k,
        ;
        lemma_mod_multiples_basic(b - q * k, p as int);
        assert((b - q * k) * p == p * (b - q * k)) by (nonlinear_arith);
        assert((r * b) % p == 0);
        lemma_euclid_small(p, r, b);
    }
}

/// A prime that divides a product divides one of the factors.
pub proof fn lemma_euclid(p: nat, a: nat, b: nat)
    requires
        spec_is_prime(p),
        (a * b) % p == 0,
        a % p != 0,
    ensures
        b % p == 0,
{
    lemma_mul_mod_noop_left(a as int, b as int, p as int);
    lemma_euclid_small(p, a % p, b);
}

/// Modulo a prime, one has no square roots but one and minus one.
pub proof fn lemma_square_root_of_one(p: nat, x: nat)
    requires
        spec_is_prime(p),
        x < p,
        (x * x) % p == 1,
    ensures
        x == 1 || x == p - 1,
{
    if x == 0 {
        assert(x * x == 0) by (nonlinear_arith)
            requires
                x == 0,
        ;
        lemma_small_mod(0, p);
    } else if x != 1 {
        let a = (x - 1) as nat;
        let b = x + 1;
        let k = (x * x) / p;
        lemma_fundamental_div_mod((x * x) as int, p as int);
        assert(a * b == p * k) by (nonlinear_arith)
            requires
                x * x == p * k + 1,
                a == x - 1,
                b == x + 1,
        ;
        lemma_mod_multiples_basic(k as int, p as int);
        assert(k * p == p * k) by (nonlinear_arith);
        assert((a * b) % p == 0);
        lemma_euclid_small(p, a, b);
        if b < p {
            lemma_small_mod(b, p);
        }
    }
}

/// The binomial coefficient: in how many ways `k` things are taken out of
/// `n`.
pub open spec fn binomial(n: nat, k: nat) -> nat
    decreases n,
{
    if k == 0 {
        1
    } else if n == 0 {
        0
    } else {
        binomial((n - 1) as nat, (k - 1) as nat) + binomial((n - 1) as nat, k)
    }
}

/// More things than there are cannot be taken.
pub proof fn lemma_binomial_beyond(n: nat, k: nat)
    requires
        k > n,
    ensures
        binomial(n, k) == 0,
    decreases n,
{
    if n > 0 {
        lemma_binomial_beyond((n - 1) as nat, (k - 1) as nat);
        lemma_binomial_beyond((n - 1) as nat, k);
    }
}

/// All things are taken in one way.
pub proof fn lemma_binomial_full(n: nat)
    ensures
        binomial(n, n) == 1,
    decreases n,
{
    if n > 0 {
        lemma_binomial_full((n - 1) as nat);
        lemma_binomial_beyond((n - 1) as nat, n);
    }
}

/// Taking `k + 1` things out of `n + 1` and marking one of those taken is
/// marking one of the `n + 1` and taking `k` out of the rest.
pub proof fn lemma_binomial_absorb(n: nat, k: nat)
    ensures
        (k + 1) * binomial(n + 1, k + 1) == (n + 1) * binomial(n, k),
    decreases n,
{
    assert(binomial(n + 1, k + 1) == binomial(n, k) + binomial(n, k + 1));
    if n == 0 {
        assert(binomial(0, k + 1) == 0);
        if k == 0 {
            assert(binomial(0, 0) == 1);
        } else {
            assert(binomial(0, k) == 0);
        }
        assert((k + 1) * binomial(n + 1, k + 1) == (n + 1) * binomial(n, k)) by (nonlinear_arith)
            requires
                n == 0,
                binomial(n + 1, k + 1) == binomial(n, k),
                k != 0 ==> binomial(n, k) == 0,
        ;
    } else {
        let m = (n - 1) as nat;
        lemma_binomial_absorb(m, k);
        assert((k + 1) * binomial(n, k + 1) == n * binomial(m, k));
        if k == 0 {
            assert(binomial(n, 0) == 1);
            assert(binomial(m, 0) == 1);
            assert((k + 1) * binomial(n + 1, k + 1) == (n + 1) * binomial(n, k))
                by (nonlinear_arith)
                requires
                    k == 0,
                    binomial(n + 1, k + 1) == binomial(n, k) + binomial(n, k + 1),
                    (k + 1) * binomial(n, k + 1) == n * binomial(m, k),
                    binomial(n, k) == 1,
                    binomial(m, k) == 1,
            ;
        } else {
            let j = (k - 1) as nat;
            lemma_binomial_absorb(m, j);
            assert(k * binomial(n, k) == n * binomial(m, j));
            assert(binomial(n, k) == binomial(m, j) + binomial(m, k));
            assert((k + 1) * binomial(n + 1, k + 1) == (n + 1) * binomial(n, k))
                by (nonlinear_arith)
                requires
                    binomial(n + 1, k + 1) == binomial(n, k) + binomial(n, k + 1),
                    (k + 1) * binomial(n, k + 1) == n * binomial(m, k),
                    k * binomial(n, k) == n * binomial(m, j),
                    binomial(n, k) == binomial(m, j) + binomial(m, k),
            ;
        }
    }
}

/// A prime divides every binomial coefficient of its row but the first and
/// the last.
pub proof fn lemma_prime_divides_binomial(p: nat, k: nat)
    requires
        spec_is_prime(p),
        0 < k < p,
    ensures
        binomial(p, k) % p == 0,
{
    lemma_binomial_absorb((p - 1) as nat, (k - 1) as nat);
    let c = binomial((p - 1) as nat, (k - 1) as nat);
    assert(k * binomial(p, k) == p * c);
    lemma_mod_multiples_basic(c as int, p as int);
    assert(c * p == p * c) by (nonlinear_arith);
    lemma_euclid_small(p, k, binomial(p, k));
}

/// The first `m + 1` terms of the expansion of `a + 1` to the `n`.
pub open spec fn binomial_sum(n: nat, a: int, m: nat) -> int
    decreases m,
{
    if m == 0 {
        1
    } else {
        binomial_sum(n, a, (m - 1) as nat) + binomial(n, m) * pow(a, m)
    }
}

/// Multiplying the first terms of one row by `a + 1` gives the first terms
/// of the next row and one term more.
proof fn lemma_binomial_sum_step(n: nat, a: int, m: nat)
    ensures
        (a + 1) * binomial_sum(n, a, m) == binomial_sum(n + 1, a, m) + binomial(n, m) * pow(
            a,
            m + 1,
        ),
    decreases m,
{
    if m == 0 {
        assert(binomial(n, 0) == 1);
        assert(pow(a, 1) == a) by {
            vstd::arithmetic::power::lemma_pow1(a);
        }
        assert(binomial(n, 0) * pow(a, 1) == a) by (nonlinear_arith)
            requires
                binomial(n, 0) == 1,
                pow(a, 1) == a,
        ;
    } else {
        let j = (m - 1) as nat;
        lemma_binomial_sum_step(n, a, j);
        let s = binomial_sum(n, a, j);
        let t = binomial_sum(n + 1, a, j);
        let c0 = binomial(n, j) as int;
        let c1 = binomial(n, m) as int;
        let pm = pow(a, m);
        let pm1 = pow(a, m + 1);
        assert(pm1 == a * pm) by {
            vstd::arithmetic::power::lemma_pow_adds(a, 1, m);
            vstd::arithmetic::power::lemma_pow1(a);
        }
        assert(binomial(n + 1, m) == c0 + c1);
        assert(binomial_sum(n, a, m) == s + c1 * pm);
        assert(binomial_sum(n + 1, a, m) == t + (c0 + c1) * pm);
        assert((a + 1) * s == t + c0 * pm);
        assert((a + 1) * (s + c1 * pm) == t + (c0 + c1) * pm + c1 * pm1) by (nonlinear_arith)
            requires
                (a + 1) * s == t + c0 * pm,
                pm1 == a * pm,
        ;
    }
}

/// The binomial theorem for `a + 1`.
pub proof fn lemma_binomial_theorem(n: nat, a: int)
    ensures
        pow(a + 1, n) == binomial_sum(n, a, n),
    decreases n,
{
    if n == 0 {
        vstd::arithmetic::power::lemma_pow0(a + 1);
    } else {
        let m = (n - 1) as nat;
        lemma_binomial_theorem(m, a);
        lemma_binomial_sum_step(m, a, m);
        lemma_binomial_full(m);
        lemma_binomial_full(n);
        assert(pow(a + 1, n) == (a + 1) * pow(a + 1, m)) by {
            vstd::arithmetic::power::lemma_pow_adds(a + 1, 1, m);
            vstd::arithmetic::power::lemma_pow1(a + 1);
        }
        assert(binomial_sum(n, a, n) == binomial_sum(n, a, m) + binomial(n, n) * pow(a, n));
    }
}

/// Modulo a prime, all terms of the expansion vanish but the first and the
/// last.
proof fn lemma_binomial_sum_mod(p: nat, a: int, m: nat)
    requires
        spec_is_prime(p),
        m < p,
    ensures
        binomial_sum(p, a, m) % (p as int) == 1,
    decreases m,
{
    if m == 0 {
        lemma_small_mod(1, p);
    } else {
        lemma_binomial_sum_mod(p, a, (m - 1) as nat);
        lemma_prime_divides_binomial(p, m);
        let s = binomial_sum(p, a, (m - 1) as nat);
        let c = binomial(p, m) as int;
        let t = c * pow(a, m);
        lemma_mul_mod_noop_left(c, pow(a, m), p as int);
        assert(0 * pow(a, m) == 0);
        lemma_small_mod(0, p);
        assert(t % (p as int) == 0);
        lemma_add_mod_noop(s, t, p as int);
        lemma_small_mod(1, p);
    }
}

/// Modulo a prime `p`, the power `p` of a sum is the sum of the powers.
pub proof fn lemma_freshman(p: nat, a: int)
    requires
        spec_is_prime(p),
    ensures
        pow(a + 1, p) % (p as int) == (pow(a, p) + 1) % (p as int),
{
    lemma_binomial_theorem(p, a);
    lemma_binomial_sum_mod(p, a, (p - 1) as nat);
    lemma_binomial_full(p);
    let s = binomial_sum(p, a, (p - 1) as nat);
    assert(binomial_sum(p, a, p) == s + binomial(p, p) * pow(a, p));
    assert(binomial(p, p) * pow(a, p) == pow(a, p)) by (nonlinear_arith)
        requires
            binomial(p, p) == 1,
    ;
    lemma_add_mod_noop(s, pow(a, p), p as int);
    lemma_add_mod_noop(1, pow(a, p), p as int);
    lemma_small_mod(1, p);
}

/// Modulo a prime `p`, the power `p` of a number is the number.
pub proof fn lemma_fermat_power(p: nat, a: nat)
    requires
        spec_is_prime(p),
    ensures
        pow(a as int, p) % (p as int) == a % p,
    decreases a,
{
    if a == 0 {
        vstd::arithmetic::power::lemma0_pow(p);
        lemma_small_mod(0, p);
    } else {
        let b = (a - 1) as nat;
        lemma_fermat_power(p, b);
        lemma_freshman(p, b as int);
        lemma_add_mod_noop(pow(b as int, p), 1, p as int);
        lemma_add_mod_noop(b as int, 1, p as int);
    }
}

/// Fermat's little theorem: modulo a prime `p`, the power `p - 1` of a number
/// that `p` does not divide is one.
pub proof fn lemma_fermat_little(p: nat, a: nat)
    requires
        spec_is_prime(p),
        a % p != 0,
    ensures
        pow(a as int, (p - 1) as nat) % (p as int) == 1,
{
    let e = (p - 1) as nat;
    let x = pow(a as int, e);
    lemma_fermat_power(p, a);
    assert(pow(a as int, p) == a * x) by {
        vstd::arithmetic::power::lemma_pow_adds(a as int, 1, e);
        vstd::arithmetic::power::lemma_pow1(a as int);
    }
    assert(a > 0) by {
        if a == 0 {
            lemma_small_mod(0, p);
        }
    }
    vstd::arithmetic::power::lemma_pow_positive(a as int, e);
    let y = (x - 1) as nat;
    // a * x and a leave the same, so the prime divides a * (x - 1)
    vstd::arithmetic::div_mod::lemma_mod_equivalence(a * x, a as int, p as int);
    assert(a * x - a == a * y) by (nonlinear_arith)
        requires
            y == x - 1,
    ;
    lemma_euclid(p, a, y);
    // x - 1 is a multiple of the prime, so x leaves one
    lemma_add_mod_noop(y as int, 1, p as int);
    lemma_small_mod(1, p);
    lemma_small_mod(0, p);
}

/// Squaring a power and reducing it is the same as doubling the exponent
/// and reducing.
pub proof fn lemma_square_mod(a: int, k: nat, n: int)
    requires
        n > 0,
    ensures
        pow(pow(a, k) % n, 2) % n == pow(a, k * 2) % n,
{
    vstd::arithmetic::power::lemma_pow_mod_noop(pow(a, k), 2, n);
    vstd::arithmetic::power::lemma_pow_multiplies(a, k, 2);
}

/// Once a power leaves one, every further squaring leaves one too.
pub proof fn lemma_one_stays(a: int, d: nat, n: int, j: nat, r: nat)
    requires
        n > 1,
        j <= r,
        pow(a, d * pow2(j)) % n == 1,
    ensures
        pow(a, d * pow2(r)) % n == 1,
    decreases r - j,
{
    if j < r {
        lemma_square_mod(a, d * pow2(j), n);
        vstd::arithmetic::power2::lemma_pow2_unfold(j + 1);
        assert(d * pow2(j) * 2 == d * pow2(j + 1)) by (nonlinear_arith)
            requires
                pow2(j + 1) == 2 * pow2(j),
        ;
        assert(pow(1, 2) == 1) by {
            vstd::arithmetic::power::lemma1_pow(2);
        }
        lemma_small_mod(1, n as nat);
        lemma_one_stays(a, d, n, j + 1, r);
    }
}

/// Modulo a prime, a chain of squarings that ends in one began with one or
/// passed minus one.
pub proof fn lemma_squarings_pass_minus_one(p: nat, d: nat, a: nat, j: nat)
    requires
        spec_is_prime(p),
        p >= 3,
        pow(a as int, d * pow2(j)) % (p as int) == 1,
    ensures
        pow(a as int, d) % (p as int) == 1 || exists|r: nat|
            r < j && #[trigger] pow(a as int, d * pow2(r)) % (p as int) == p - 1,
    decreases j,
{
    if j == 0 {
        vstd::arithmetic::power2::lemma2_to64();
        assert(d * pow2(0) == d) by (nonlinear_arith)
            requires
                pow2(0) == 1,
        ;
    } else {
        let i = (j - 1) as nat;
        let k = d * pow2(i);
        let y = pow(a as int, k) % (p as int);
        vstd::arithmetic::div_mod::lemma_mod_bound(pow(a as int, k), p as int);
        lemma_square_mod(a as int, k, p as int);
        vstd::arithmetic::power2::lemma_pow2_unfold(j);
        assert(k * 2 == d * pow2(j)) by (nonlinear_arith)
            requires
                k == d * pow2(i),
                pow2(j) == 2 * pow2(i),
        ;
        vstd::arithmetic::power::lemma_square_is_pow2(y);
        assert((y * y) % (p as int) == 1);
        lemma_square_root_of_one(p, y as nat);
        if y == 1 {
            lemma_squarings_pass_minus_one(p, d, a, i);
        } else {
            assert(i < j && pow(a as int, d * pow2(i)) % (p as int) == p - 1);
        }
    }
}

/// An odd prime is a strong probable prime to every base that it does not
/// divide.
pub proof fn lemma_prime_is_strong_probable_prime(p: nat, d: nat, s: nat, a: nat)
    requires
        spec_is_prime(p),
        p >= 3,
        d * pow2(s) == p - 1,
        a % p != 0,
    ensures
        pow(a as int, d) % (p as int) == 1 || exists|r: nat|
            r < s && #[trigger] pow(a as int, d * pow2(r)) % (p as int) == p - 1,
{
    lemma_fermat_little(p, a);
    lemma_squarings_pass_minus_one(p, d, a, s);
}

/// Whether one of the six primes below seventeen divides `n`.
pub open spec fn has_tiny_factor(n: nat) -> bool {
    n % 2 == 0 || n % 3 == 0 || n % 5 == 0 || n % 7 == 0 || n % 11 == 0 || n % 13 == 0
}

/// A number that has a divisor between one and itself has one that is at
/// most its square root: for a number below the square of `bound`, one below
/// `bound`.
pub proof fn lemma_small_divisor(n: nat, bound: nat) -> (w: nat)
    requires
        n >= 2,
        !spec_is_prime(n),
        n < bound * bound,
    ensures
        1 < w < bound,
        w < n,
        divides(w, n),
{
    let d = choose|d: nat| 1 < d < n && #[trigger] divides(d, n);
    let e = n / d;
    lemma_fundamental_div_mod(n as int, d as int);
    assert(n == d * e);
    assert(1 < e < n) by (nonlinear_arith)
        requires
            n == d * e,
            1 < d < n,
    ;
    lemma_mod_multiples_basic(d as int, e as int);
    assert(d * e == e * d) by (nonlinear_arith);
    assert(divides(e, n));
    if d < bound {
        d
    } else {
        assert(e < bound) by (nonlinear_arith)
            requires
                n == d * e,
                d >= bound,
                n < bound * bound,
        ;
        e
    }
}

/// What divides a divisor divides the number.
pub proof fn lemma_divides_transitive(q: nat, w: nat, n: nat)
    requires
        divides(q, w),
        divides(w, n),
    ensures
        divides(q, n),
{
    let t = w / q;
    let o = n / w;
    lemma_fundamental_div_mod(w as int, q as int);
    lemma_fundamental_div_mod(n as int, w as int);
    assert(n == (t * o) * q) by (nonlinear_arith)
        requires
            w == q * t,
            n == w * o,
    ;
    lemma_mod_multiples_basic((t * o) as int, q as int);
}

/// A composite number below the square of seventeen has a prime factor below
/// seventeen.
pub proof fn lemma_composite_has_tiny_factor(n: nat)
    requires
        2 <= n < 289,
        !spec_is_prime(n),
    ensures
        has_tiny_factor(n),
{
    let w = lemma_small_divisor(n, 17);
    let q: nat = if w % 2 == 0 {
        2
    } else if w % 3 == 0 {
        3
    } else if w % 5 == 0 {
        5
    } else if w % 7 == 0 {
        7
    } else if w % 11 == 0 {
        11
    } else {
        13
    };
    assert(divides(q, w)) by {
        assert(w == 2 || w == 3 || w == 4 || w == 5 || w == 6 || w == 7 || w == 8 || w == 9 || w
            == 10 || w == 11 || w == 12 || w == 13 || w == 14 || w == 15 || w == 16);
    }
    lemma_divides_transitive(q, w, n);
}

} // verus!
