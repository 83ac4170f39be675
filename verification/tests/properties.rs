use num_bigint::BigUint;

use chaum_pedersen::exponetiate;
use chaum_pedersen::exponetiate_checked;
use chaum_pedersen::generate_random_below;
use chaum_pedersen::generate_random_below_checked;
use chaum_pedersen::solve;
use chaum_pedersen::solve_checked;
use chaum_pedersen::verify;
use chaum_pedersen::ParamError;

/// Modular exponentiation lands in `[0, p)` for a sweep of inputs, and
/// matches values computed by hand.
#[test]
fn mod_exp_in_range_and_exact() {
    let p = BigUint::from(23u32);
    for base in 0u32..30 {
        for e in 0u32..30 {
            let b = BigUint::from(base);
            let exp = BigUint::from(e);
            let r = exponetiate(&b, &exp, &p);
            assert!(r < p);
            // Reference value by repeated multiplication.
            let mut expect: u64 = 1;
            for _ in 0..e {
                expect = expect * base as u64 % 23;
            }
            assert_eq!(r, BigUint::from(expect));
        }
    }
    // A case where handing back any argument unchanged would be caught.
    let r = exponetiate(&BigUint::from(2u32), &BigUint::from(3u32), &BigUint::from(5u32));
    assert_eq!(r, BigUint::from(3u32));
}

/// A generator of order 11 modulo 23 taken to its order gives 1.
#[test]
fn generator_order_consistency() {
    let p = BigUint::from(23u32);
    let q = BigUint::from(11u32);
    assert_eq!(exponetiate(&BigUint::from(4u32), &q, &p), BigUint::from(1u32));
    assert_eq!(exponetiate(&BigUint::from(9u32), &q, &p), BigUint::from(1u32));
}

/// `solve` stays in `[0, q)` across both branches, including the boundary
/// where `(c*x - k) mod q == 0`, which must give 0, not `q`.
#[test]
fn response_in_range_with_boundary() {
    let q = BigUint::from(11u32);
    for k in 0u32..23 {
        for c in 0u32..12 {
            for x in 0u32..12 {
                let s = solve(&BigUint::from(k), &BigUint::from(c), &BigUint::from(x), &q);
                assert!(s < q);
                let expect = ((k as i64 - c as i64 * x as i64).rem_euclid(11)) as u32;
                assert_eq!(s, BigUint::from(expect));
            }
        }
    }
    // k = 0, c = 1, x = 11: c*x - k = 11, and 11 mod 11 == 0, so s must be 0.
    let s = solve(
        &BigUint::from(0u32),
        &BigUint::from(1u32),
        &BigUint::from(11u32),
        &q,
    );
    assert_eq!(s, BigUint::from(0u32));
}

/// A full round trip with larger, multi-word numbers: honest transcripts
/// verify, tampered responses do not.
#[test]
fn round_trip_large_values() {
    // p = 2q + 1 with q prime: p = 1019, q = 509; alpha = 4 = 2^2 is a
    // quadratic residue, so its order divides q.
    let p = BigUint::from(1019u32);
    let q = BigUint::from(509u32);
    let alpha = BigUint::from(4u32);
    let beta = BigUint::from(9u32);
    assert_eq!(exponetiate(&alpha, &q, &p), BigUint::from(1u32));
    assert_eq!(exponetiate(&beta, &q, &p), BigUint::from(1u32));

    for trial in 0u32..20 {
        let x = generate_random_below(&q);
        let k = generate_random_below(&q);
        let c = generate_random_below(&q);
        let y1 = exponetiate(&alpha, &x, &p);
        let y2 = exponetiate(&beta, &x, &p);
        let r1 = exponetiate(&alpha, &k, &p);
        let r2 = exponetiate(&beta, &k, &p);
        let s = solve(&k, &c, &x, &q);
        assert!(verify(&r1, &r2, &alpha, &beta, &y1, &y2, &s, &c, &p));

        // A response off by one never verifies for these groups: the
        // reconstruction moves by a factor of alpha.
        let s_bad = (&s + BigUint::from(1u32)) % &q;
        let tampered = verify(&r1, &r2, &alpha, &beta, &y1, &y2, &s_bad, &c, &p);
        assert!(!tampered, "trial {trial} accepted a tampered response");
    }
}

/// Sampling stays strictly below the bound, also for a bound of one.
#[test]
fn random_below_in_range() {
    let one = BigUint::from(1u32);
    for _ in 0..50 {
        assert_eq!(generate_random_below(&one), BigUint::from(0u32));
    }
    let bound = BigUint::from(997u32);
    for _ in 0..500 {
        assert!(generate_random_below(&bound) < bound);
    }
}

/// Large-sample draws below 11 show no gross modulo bias: each residue
/// appears, with a frequency close to uniform.
#[test]
fn random_below_unbiased() {
    let bound = BigUint::from(11u32);
    let draws: u32 = 11_000;
    let mut counts = [0u32; 11];
    for _ in 0..draws {
        let v = generate_random_below(&bound);
        let digits = v.to_u32_digits();
        let idx = if digits.is_empty() { 0 } else { digits[0] as usize };
        counts[idx] += 1;
    }
    // Expected count is 1000 per bucket; 650..1350 is far beyond any
    // plausible random fluctuation but catches systematic bias.
    for (i, &n) in counts.iter().enumerate() {
        assert!(
            (650..1350).contains(&n),
            "residue {i} drawn {n} times out of {draws}"
        );
    }
}

/// Each rejected parameter surfaces as its own error; valid parameters
/// give the same values as the unchecked calls.
#[test]
fn checked_variants() {
    let zero = BigUint::from(0u32);
    let two = BigUint::from(2u32);
    let three = BigUint::from(3u32);
    let five = BigUint::from(5u32);

    assert_eq!(
        exponetiate_checked(&two, &three, &zero),
        Err(ParamError::InvalidModulus)
    );
    assert_eq!(
        exponetiate_checked(&two, &three, &five),
        Ok(BigUint::from(3u32))
    );

    assert_eq!(
        solve_checked(&five, &two, &three, &zero),
        Err(ParamError::InvalidModulus)
    );
    assert_eq!(solve_checked(&five, &two, &three, &five), Ok(BigUint::from(4u32)));

    assert_eq!(
        generate_random_below_checked(&zero),
        Err(ParamError::InvalidBound)
    );
    let drawn = generate_random_below_checked(&five).unwrap();
    assert!(drawn < five);
}
