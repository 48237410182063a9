use rand_chacha::rand_core::SeedableRng;
use rand_chacha::ChaCha20Rng;

use ssp::primes::small_primes::{SMALL_PRIMES, SMALL_PRIMES_LEN};
use ssp::primes::{Generator, TrialDivision, MILLER_RABIN_ROUNDS};

fn rng() -> ChaCha20Rng {
    ChaCha20Rng::from_seed([7u8; 32])
}

fn mul_mod(a: u64, b: u64, n: u64) -> u64 {
    ((a as u128 * b as u128) % n as u128) as u64
}

fn pow_mod(mut base: u64, mut exp: u64, n: u64) -> u64 {
    let mut acc = 1 % n;
    base %= n;
    while exp > 0 {
        if exp & 1 == 1 {
            acc = mul_mod(acc, base, n);
        }
        base = mul_mod(base, base, n);
        exp >>= 1;
    }
    acc
}

// exact for every 64-bit number with these bases
fn reference_is_prime(n: u64) -> bool {
    if n < 2 {
        return false;
    }
    for p in [2u64, 3, 5, 7, 11, 13, 17, 19, 23, 29, 31, 37] {
        if n % p == 0 {
            return n == p;
        }
    }
    let mut d = n - 1;
    let mut s = 0;
    while d % 2 == 0 {
        d /= 2;
        s += 1;
    }
    'bases: for a in [2u64, 3, 5, 7, 11, 13, 17, 19, 23, 29, 31, 37] {
        let mut x = pow_mod(a, d, n);
        if x == 1 || x == n - 1 {
            continue;
        }
        for _ in 1..s {
            x = mul_mod(x, x, n);
            if x == n - 1 {
                continue 'bases;
            }
        }
        return false;
    }
    true
}

fn has_divisor_up_to(n: u64, limit: u64) -> bool {
    let mut d = 2;
    while d <= limit && d * d <= n {
        if n % d == 0 {
            return true;
        }
        d += 1;
    }
    false
}

#[test]
fn table_holds_the_primes_below_256() {
    assert_eq!(SMALL_PRIMES.len(), SMALL_PRIMES_LEN);
    let expected: Vec<u16> = (2u16..256).filter(|&n| !has_divisor_up_to(n as u64, 16)).collect();
    assert_eq!(&SMALL_PRIMES[..], &expected[..]);
    assert_eq!(MILLER_RABIN_ROUNDS, 16);
}

#[test]
fn two_is_prime_and_small_composites_are_not() {
    let mut rng = rng();
    assert!(Generator::is_prime(2, &mut rng));
    assert!(!Generator::is_prime(4, &mut rng));
    assert!(!Generator::is_prime(6, &mut rng));
    assert!(!Generator::is_prime(15, &mut rng));
    assert!(!Generator::is_prime(21, &mut rng));
}

#[test]
fn every_entry_of_the_table_is_prime() {
    let mut rng = rng();
    for &p in SMALL_PRIMES.iter() {
        assert!(Generator::is_prime(p as u64, &mut rng), "{}", p);
    }
}

#[test]
fn zero_and_one_are_not_prime() {
    let mut rng = rng();
    assert!(!Generator::is_prime(0, &mut rng));
    assert!(!Generator::is_prime(1, &mut rng));
}

#[test]
fn is_prime_agrees_with_trial_division_below_70000() {
    let mut rng = rng();
    for n in 0u64..70_000 {
        assert_eq!(Generator::is_prime(n, &mut rng), n >= 2 && !has_divisor_up_to(n, 300), "{}", n);
    }
}

#[test]
fn is_prime_on_large_numbers() {
    let mut rng = rng();
    assert!(Generator::is_prime(18_446_744_073_709_551_557, &mut rng));
    assert!(Generator::is_prime(2_305_843_009_213_693_951, &mut rng));
    assert!(Generator::is_prime(4_294_967_311, &mut rng));
    assert!(!Generator::is_prime(18_446_744_073_709_551_615, &mut rng));
    assert!(!Generator::is_prime(4_294_967_297, &mut rng));
    // the product of two primes beyond the table
    assert!(!Generator::is_prime(4_294_967_291 * 4_294_967_279, &mut rng));
    // Carmichael numbers without a factor in the table: 271 * 541 * 811 and
    // 307 * 613 * 919 pass the Fermat test to nearly every base
    assert!(Generator::fermat(118_901_521, &mut rng).0);
    assert!(!Generator::miller_rabin(118_901_521, &mut rng).0);
    assert!(!Generator::is_prime(118_901_521, &mut rng));
    assert!(!Generator::is_prime(172_947_529, &mut rng));
}

#[test]
fn even_and_odd() {
    assert!(Generator::is_even(0));
    assert!(!Generator::is_even(1));
    assert!(Generator::is_even(u64::MAX - 1));
    assert!(Generator::is_odd(u64::MAX));
    assert!(!Generator::is_odd(2));
}

#[test]
fn trial_division_verdicts() {
    assert_eq!(Generator::div_small_primes(2), TrialDivision::Prime);
    assert_eq!(Generator::div_small_primes(251), TrialDivision::Prime);
    assert_eq!(Generator::div_small_primes(4), TrialDivision::Composite);
    assert_eq!(Generator::div_small_primes(0), TrialDivision::Composite);
    assert_eq!(Generator::div_small_primes(251 * 251), TrialDivision::Composite);
    assert_eq!(Generator::div_small_primes(1), TrialDivision::Undecided);
    assert_eq!(Generator::div_small_primes(257), TrialDivision::Undecided);
    assert_eq!(Generator::div_small_primes(257 * 263), TrialDivision::Undecided);
}

#[test]
fn rewrite_splits_off_the_powers_of_two() {
    assert_eq!(Generator::rewrite(2), (1, 0));
    assert_eq!(Generator::rewrite(3), (1, 1));
    assert_eq!(Generator::rewrite(13), (3, 2));
    assert_eq!(Generator::rewrite(17), (1, 4));
    assert_eq!(Generator::rewrite(341), (85, 2));
    assert_eq!(Generator::rewrite(u64::MAX), (u64::MAX / 2, 1));
    assert_eq!(Generator::rewrite((1u64 << 63) + 1), (1, 63));
}

#[test]
fn fermat_rounds() {
    assert!(Generator::fermat_round(7, 3));
    assert!(!Generator::fermat_round(9, 2));
    // pseudoprimes to the base two
    assert!(Generator::fermat_round(341, 2));
    assert!(Generator::fermat_round(561, 2));
    assert!(!Generator::fermat_round(341, 3));
    assert!(!Generator::fermat_round(0, 2));
    assert!(!Generator::fermat_round(1, 2));
    assert!(Generator::fermat_round(18_446_744_073_709_551_557, 123_456_789));
    for a in 2..255 {
        assert_eq!(Generator::fermat_round(257, a), pow_mod(a, 256, 257) == 1);
        assert_eq!(Generator::fermat_round(255, a), pow_mod(a, 254, 255) == 1);
    }
}

#[test]
fn miller_rabin_rounds() {
    assert!(Generator::miller_rabin_round(7, 3));
    assert!(Generator::miller_rabin_round(13, 2));
    assert!(!Generator::miller_rabin_round(9, 2));
    assert!(!Generator::miller_rabin_round(341, 2));
    assert!(!Generator::miller_rabin_round(561, 2));
    // the smallest strong pseudoprime to the base two
    assert!(Generator::miller_rabin_round(2047, 2));
    assert!(!Generator::miller_rabin_round(2047, 3));
    assert!(!Generator::miller_rabin_round(2, 2));
    assert!(!Generator::miller_rabin_round(1, 2));
    assert!(!Generator::miller_rabin_round(0, 2));
    assert!(!Generator::miller_rabin_round(10, 3));
    assert!(Generator::miller_rabin_round(18_446_744_073_709_551_557, 2));
}

#[test]
fn fermat_and_miller_rabin_with_drawn_bases() {
    let mut rng = rng();
    assert!(!Generator::fermat(0, &mut rng).0);
    assert!(!Generator::fermat(1, &mut rng).0);
    assert!(!Generator::fermat(3, &mut rng).0);
    assert!(Generator::fermat(5, &mut rng).0);
    assert!(Generator::fermat(257, &mut rng).0);
    assert!(!Generator::fermat(255, &mut rng).0);
    assert!(Generator::miller_rabin(2, &mut rng).0);
    assert!(Generator::miller_rabin(3, &mut rng).0);
    assert!(Generator::miller_rabin(257, &mut rng).0);
    assert!(!Generator::miller_rabin(0, &mut rng).0);
    assert!(!Generator::miller_rabin(1, &mut rng).0);
    assert!(!Generator::miller_rabin(4, &mut rng).0);
    assert!(!Generator::miller_rabin(255, &mut rng).0);
}

#[test]
fn ranges_of_the_bases() {
    assert_eq!(Generator::fermat_range(0), None);
    assert_eq!(Generator::fermat_range(3), None);
    assert_eq!(Generator::fermat_range(4), Some((2, 2)));
    assert_eq!(Generator::fermat_range(257), Some((2, 255)));
    assert_eq!(Generator::fermat_range(u64::MAX), Some((2, u64::MAX - 2)));
    assert_eq!(Generator::miller_rabin_range(2), None);
    assert_eq!(Generator::miller_rabin_range(3), Some((2, 2)));
    assert_eq!(Generator::miller_rabin_range(257), Some((2, 256)));
}

#[test]
fn fermat_with_given_bases() {
    let bases: Vec<u64> = (2..18).collect();
    assert!(Generator::fermat_with(257, &bases));
    assert!(!Generator::fermat_with(255, &bases));
    // 341 passes to the base two and to no other base here
    assert!(Generator::fermat_with(341, &[2; 16]));
    let mut one_other = [2u64; 16];
    one_other[15] = 3;
    assert!(!Generator::fermat_with(341, &one_other));
    one_other[15] = 2;
    one_other[0] = 3;
    assert!(!Generator::fermat_with(341, &one_other));
    // a base for each round, no fewer and no more
    assert!(!Generator::fermat_with(257, &bases[..15]));
    assert!(!Generator::fermat_with(257, &[]));
    assert!(!Generator::fermat_with(257, &[2; 17]));
    assert!(!Generator::fermat_with(3, &[2; 16]));
    assert!(!Generator::fermat_with(0, &[2; 16]));
}

#[test]
fn miller_rabin_with_given_bases() {
    let bases: Vec<u64> = (2..18).collect();
    assert!(Generator::miller_rabin_with(257, &bases));
    assert!(Generator::miller_rabin_with(3, &[2; 16]));
    assert!(Generator::miller_rabin_with(2, &[]));
    assert!(Generator::miller_rabin_with(2, &bases));
    assert!(!Generator::miller_rabin_with(255, &bases));
    // 2047 passes to the base two, and every odd number to the base below it
    assert!(Generator::miller_rabin_with(2047, &[2; 16]));
    assert!(Generator::miller_rabin_with(2047, &[2046; 16]));
    let mut one_other = [2u64; 16];
    one_other[7] = 3;
    assert!(!Generator::miller_rabin_with(2047, &one_other));
    assert!(!Generator::miller_rabin_with(257, &bases[..15]));
    assert!(!Generator::miller_rabin_with(257, &[2; 17]));
    assert!(!Generator::miller_rabin_with(4, &bases));
    assert!(!Generator::miller_rabin_with(1, &bases));
    assert!(!Generator::miller_rabin_with(0, &bases));
}

#[test]
fn tests_give_back_the_bases_drawn() {
    let mut rng = rng();
    let (passes, bases) = Generator::fermat(257, &mut rng);
    assert!(passes);
    assert_eq!(bases.len(), MILLER_RABIN_ROUNDS);
    assert!(bases.iter().all(|&a| 2 <= a && a <= 255));
    assert!(Generator::fermat_with(257, &bases));
    assert!(bases.iter().any(|&a| a != bases[0]));

    let (passes, bases) = Generator::fermat(255, &mut rng);
    assert!(!passes);
    assert!(1 <= bases.len() && bases.len() <= MILLER_RABIN_ROUNDS);
    assert!(bases.iter().all(|&a| 2 <= a && a <= 253));
    let (last, before) = bases.split_last().unwrap();
    assert!(!Generator::fermat_round(255, *last));
    assert!(before.iter().all(|&a| Generator::fermat_round(255, a)));

    let (passes, bases) = Generator::miller_rabin(257, &mut rng);
    assert!(passes);
    assert_eq!(bases.len(), MILLER_RABIN_ROUNDS);
    assert!(bases.iter().all(|&a| 2 <= a && a <= 256));
    assert!(Generator::miller_rabin_with(257, &bases));

    let (passes, bases) = Generator::miller_rabin(2047, &mut rng);
    assert!(!passes);
    assert!(1 <= bases.len() && bases.len() <= MILLER_RABIN_ROUNDS);
    let (last, before) = bases.split_last().unwrap();
    assert!(!Generator::miller_rabin_round(2047, *last));
    assert!(before.iter().all(|&a| Generator::miller_rabin_round(2047, a)));

    assert_eq!(Generator::fermat(3, &mut rng), (false, vec![]));
    assert_eq!(Generator::miller_rabin(2, &mut rng), (true, vec![]));
    assert_eq!(Generator::miller_rabin(10, &mut rng), (false, vec![]));
    assert_eq!(Generator::miller_rabin(1, &mut rng), (false, vec![]));
}

#[test]
fn is_prime_with_given_bases() {
    let bases: Vec<u64> = (2..18).collect();
    // the sieve decides, whatever the bases
    assert!(Generator::is_prime_with(2, &[], &[]));
    assert!(Generator::is_prime_with(251, &[], &bases));
    assert!(!Generator::is_prime_with(0, &bases, &bases));
    assert!(!Generator::is_prime_with(1, &bases, &bases));
    assert!(!Generator::is_prime_with(4, &bases, &bases));
    assert!(!Generator::is_prime_with(255, &bases, &bases));
    // beyond the table both tests are asked
    assert!(Generator::is_prime_with(257, &bases, &bases));
    assert!(!Generator::is_prime_with(257, &bases, &[]));
    assert!(!Generator::is_prime_with(257, &[], &bases));
    assert!(!Generator::is_prime_with(257 * 263, &bases, &bases));
    // 271 * 541 * 811 passes the Fermat test to these bases, and not the
    // Miller-Rabin test
    assert!(Generator::fermat_with(118_901_521, &bases));
    assert!(!Generator::miller_rabin_with(118_901_521, &bases));
    assert!(!Generator::is_prime_with(118_901_521, &bases, &bases));
    // to the base below it every odd number passes the Miller-Rabin test
    assert!(Generator::is_prime_with(118_901_521, &bases, &[118_901_520; 16]));
}

#[test]
fn is_prime_gives_back_the_bases_of_both_tests() {
    let mut rng = rng();
    assert_eq!(Generator::is_prime_drawn(2, &mut rng), (true, vec![], vec![]));
    assert_eq!(Generator::is_prime_drawn(0, &mut rng), (false, vec![], vec![]));
    assert_eq!(Generator::is_prime_drawn(1, &mut rng), (false, vec![], vec![]));
    assert_eq!(Generator::is_prime_drawn(15, &mut rng), (false, vec![], vec![]));

    let (prime, fermat, miller_rabin) = Generator::is_prime_drawn(65_537, &mut rng);
    assert!(prime);
    assert_eq!(fermat.len(), MILLER_RABIN_ROUNDS);
    assert_eq!(miller_rabin.len(), MILLER_RABIN_ROUNDS);
    assert!(fermat.iter().all(|&a| 2 <= a && a <= 65_535));
    assert!(miller_rabin.iter().all(|&a| 2 <= a && a <= 65_536));
    assert!(Generator::is_prime_with(65_537, &fermat, &miller_rabin));

    // fails the Fermat test: nothing is drawn for the second test
    let (prime, fermat, miller_rabin) = Generator::is_prime_drawn(257 * 263, &mut rng);
    assert!(!prime);
    assert!(!fermat.is_empty());
    assert!(miller_rabin.is_empty());
    assert!(!Generator::fermat_round(257 * 263, *fermat.last().unwrap()));

    // passes the Fermat test and fails the second
    let (prime, fermat, miller_rabin) = Generator::is_prime_drawn(118_901_521, &mut rng);
    assert!(!prime);
    assert_eq!(fermat.len(), MILLER_RABIN_ROUNDS);
    assert!(!miller_rabin.is_empty());
    assert!(!Generator::miller_rabin_round(118_901_521, *miller_rabin.last().unwrap()));
    assert!(!Generator::is_prime_with(118_901_521, &fermat, &miller_rabin));

    // the verdict and the draws are those of is_prime
    let mut first = ChaCha20Rng::from_seed([3u8; 32]);
    let mut second = ChaCha20Rng::from_seed([3u8; 32]);
    for n in [65_537u64, 257 * 263, 118_901_521, 4_294_967_311] {
        assert_eq!(Generator::is_prime(n, &mut first), Generator::is_prime_drawn(n, &mut second).0);
    }
}

#[test]
fn bases_are_drawn_afresh_for_each_round() {
    let mut rng = rng();
    // 341 passes the Fermat test to the base two, and 2047 the Miller-Rabin
    // test: only other bases turn them away
    assert!(Generator::fermat_round(341, 2));
    assert!(!Generator::fermat(341, &mut rng).0);
    assert!(Generator::miller_rabin_round(2047, 2));
    assert!(!Generator::miller_rabin(2047, &mut rng).0);
}

#[test]
fn new_primes_are_prime() {
    let mut generator = Generator::from_seed([42u8; 32]);
    for _ in 0..300 {
        let prime = generator.new_prime().unwrap();
        assert!(reference_is_prime(prime), "{}", prime);
        assert!(!has_divisor_up_to(prime, 10_000), "{}", prime);
    }
}

#[test]
fn new_primes_survive_the_three_stages() {
    let mut generator = Generator::from_seed([9u8; 32]);
    for _ in 0..20 {
        let prime = generator.new_prime().unwrap();
        assert!(prime >= 2);
        assert_ne!(Generator::div_small_primes(prime), TrialDivision::Composite);
        assert!(Generator::fermat_round(prime, 2));
        assert!(Generator::miller_rabin_round(prime, 2));
        assert!(Generator::miller_rabin_round(prime, prime - 1));
    }
    assert_eq!(generator.seed(), [9u8; 32]);
}

#[test]
fn equal_seeds_give_equal_primes() {
    let mut first = Generator::from_seed([1u8; 32]);
    let mut second = Generator::from_seed([1u8; 32]);
    let mut other = Generator::from_seed([2u8; 32]);
    let a: Vec<u64> = (0..5).map(|_| first.new_prime().unwrap()).collect();
    let b: Vec<u64> = (0..5).map(|_| second.new_prime().unwrap()).collect();
    let c: Vec<u64> = (0..5).map(|_| other.new_prime().unwrap()).collect();
    assert_eq!(a, b);
    assert_ne!(a, c);
    assert_eq!(first.seed(), [1u8; 32]);
}

#[test]
fn set_seed_starts_the_stream_again() {
    let mut generator = Generator::from_seed([1u8; 32]);
    let first = generator.new_prime().unwrap();
    assert_eq!(generator.seed(), [1u8; 32]);
    generator.set_seed([1u8; 32]);
    assert_eq!(generator.new_prime().unwrap(), first);
    generator.set_seed([3u8; 32]);
    assert_eq!(generator.seed(), [3u8; 32]);
    let mut fresh = Generator::from_seed([3u8; 32]);
    assert_eq!(generator.new_prime(), fresh.new_prime());
}

#[test]
fn no_attempts_give_no_prime() {
    let mut generator = Generator::from_seed([1u8; 32]);
    assert_eq!(generator.new_prime_within(0), None);
    let found = generator.new_prime_within(100_000).unwrap();
    assert!(reference_is_prime(found));
}

#[test]
fn generators_from_entropy_differ() {
    let mut first = Generator::from_entropy();
    let mut second = Generator::from_entropy();
    assert_ne!(first.seed(), second.seed());
    assert!(reference_is_prime(first.new_prime().unwrap()));
    assert!(reference_is_prime(second.new_prime().unwrap()));
}
