//! Laws of the protocol, proved once over the mathematical model: exponent
//! congruence, order consistency, completeness of verification against an
//! honest prover's response, and soundness against a wrong secret.

use vstd::prelude::*;
use vstd::arithmetic::power::pow;
use vstd::arithmetic::power::lemma_pow_adds;
use vstd::arithmetic::power::lemma_pow_multiplies;
use vstd::arithmetic::power::lemma_pow_mod_noop;
use vstd::arithmetic::power::lemma1_pow;
use vstd::arithmetic::div_mod::lemma_fundamental_div_mod;
use vstd::arithmetic::div_mod::lemma_div_is_ordered;
use vstd::arithmetic::div_mod::lemma_small_mod;
use vstd::arithmetic::div_mod::lemma_mod_bound;
use vstd::arithmetic::div_mod::lemma_mul_mod_noop_right;
use vstd::arithmetic::div_mod::lemma_add_mod_noop;
use vstd::arithmetic::div_mod::lemma_add_mod_noop_right;
use vstd::arithmetic::div_mod::lemma_mod_equivalence;
use crate::model::mod_exp_spec;
use crate::model::response_spec;
use crate::model::verify_spec;

verus! {

proof fn lemma_pow_congruent_le(b: nat, e1: nat, e2: nat, q: nat, p: nat)
    requires
        p > 1,
        q > 0,
        pow(b as int, q) % (p as int) == 1,
        e1 % q == e2 % q,
        e1 <= e2,
    ensures
        pow(b as int, e1) % (p as int) == pow(b as int, e2) % (p as int),
{
    let bi = b as int;
    let qi = q as int;
    let pi = p as int;
    let d1 = e1 as int / qi;
    let d2 = e2 as int / qi;
    lemma_fundamental_div_mod(e1 as int, qi);
    lemma_fundamental_div_mod(e2 as int, qi);
    lemma_div_is_ordered(e1 as int, e2 as int, qi);
    let t = (d2 - d1) as nat;
    let tq = (e2 - e1) as nat;
    assert(tq == q * t) by (nonlinear_arith)
        requires
            e1 as int == qi * d1 + e1 as int % qi,
            e2 as int == qi * d2 + e2 as int % qi,
            e1 % q == e2 % q,
            e1 <= e2,
            qi == q,
            t == d2 - d1,
            tq == e2 - e1,
    ;
    lemma_pow_adds(bi, e1, tq);
    lemma_pow_multiplies(bi, q, t);
    lemma_pow_mod_noop(pow(bi, q), t, pi);
    lemma1_pow(t);
    lemma_small_mod(1, p);
    lemma_mul_mod_noop_right(pow(bi, e1), pow(pow(bi, q), t), pi);
}

/// Exponents matter only modulo the order: once `b^q mod p = 1`, two
/// exponents that agree modulo `q` give the same power modulo `p`.
pub proof fn lemma_pow_congruent(b: nat, e1: nat, e2: nat, q: nat, p: nat)
    requires
        p > 1,
        q > 0,
        pow(b as int, q) % (p as int) == 1,
        e1 % q == e2 % q,
    ensures
        pow(b as int, e1) % (p as int) == pow(b as int, e2) % (p as int),
{
    if e1 <= e2 {
        lemma_pow_congruent_le(b, e1, e2, q, p);
    } else {
        lemma_pow_congruent_le(b, e2, e1, q, p);
    }
}

/// Order consistency: for a generator `alpha` whose order divides `q`
/// modulo `p` — that is, `alpha^q mod p = 1` — every multiple of `q` in the
/// exponent also yields `1`.
pub proof fn lemma_order_consistency(alpha: nat, q: nat, p: nat, m: nat)
    requires
        p > 1,
        q > 0,
        mod_exp_spec(alpha, q, p) == 1,
    ensures
        mod_exp_spec(alpha, m * q, p) == 1,
{
    broadcast use vstd::arithmetic::mul::lemma_mul_is_commutative;

    lemma_pow_multiplies(alpha as int, q, m);
    lemma_pow_mod_noop(pow(alpha as int, q), m, p as int);
    lemma1_pow(m);
    lemma_small_mod(1, p);
}

/// The verifier's reconstruction is itself a single power of the
/// generator: `g^s * (g^x mod p)^c mod p == g^(s + c*x) mod p`.
proof fn lemma_recon_power(g: nat, x: nat, s: nat, c: nat, p: nat)
    requires
        p > 1,
    ensures
        (pow(g as int, s) * pow(mod_exp_spec(g, x, p) as int, c)) % (p as int) == pow(
            g as int,
            s + c * x,
        ) % (p as int),
{
    broadcast use vstd::arithmetic::mul::lemma_mul_is_commutative;

    let gi = g as int;
    let pi = p as int;
    let y = mod_exp_spec(g, x, p);
    lemma_mod_bound(pow(gi, x), pi);
    lemma_pow_mod_noop(pow(gi, x), c, pi);
    lemma_pow_multiplies(gi, x, c);
    lemma_mul_mod_noop_right(pow(gi, s), pow(y as int, c), pi);
    lemma_mul_mod_noop_right(pow(gi, s), pow(gi, x * c), pi);
    lemma_pow_adds(gi, s, x * c);
}

/// The response satisfies its defining congruence:
/// `s + c*x = k (mod q)` for `s = (k - c*x) mod q`, and `s` lies in `[0, q)`.
pub proof fn lemma_response_congruent(k: nat, c: nat, x: nat, q: nat)
    requires
        q > 0,
    ensures
        0 <= response_spec(k as int, c as int, x as int, q as int) < q,
        (response_spec(k as int, c as int, x as int, q as int) + c * x) % (q as int) == k % q,
{
    let qi = q as int;
    let cx = c as int * x as int;
    let si = response_spec(k as int, c as int, x as int, q as int);
    lemma_mod_bound(k - cx, qi);
    lemma_add_mod_noop(k - cx, cx, qi);
    lemma_add_mod_noop_right(si, cx, qi);
}

proof fn lemma_reconstruction(g: nat, x: nat, k: nat, c: nat, s: nat, q: nat, p: nat)
    requires
        p > 1,
        q > 0,
        pow(g as int, q) % (p as int) == 1,
        (s + c * x) % q == k % q,
    ensures
        mod_exp_spec(g, k, p) == (pow(g as int, s) * pow(mod_exp_spec(g, x, p) as int, c)) % (
        p as int),
{
    lemma_recon_power(g, x, s, c, p);
    lemma_pow_congruent(g, s + c * x, k, q, p);
}

/// Completeness of the protocol, the round trip: for public keys
/// `y1 = alpha^x mod p`, `y2 = beta^x mod p`, commitments `r1 = alpha^k mod p`,
/// `r2 = beta^k mod p`, and the honest response `s = (k - c*x) mod q`,
/// verification succeeds, whenever both generators satisfy
/// `g^q mod p = 1`.
pub proof fn lemma_round_trip(alpha: nat, beta: nat, x: nat, k: nat, c: nat, q: nat, p: nat)
    requires
        p > 1,
        q > 0,
        mod_exp_spec(alpha, q, p) == 1,
        mod_exp_spec(beta, q, p) == 1,
    ensures
        verify_spec(
            mod_exp_spec(alpha, k, p),
            mod_exp_spec(beta, k, p),
            alpha,
            beta,
            mod_exp_spec(alpha, x, p),
            mod_exp_spec(beta, x, p),
            response_spec(k as int, c as int, x as int, q as int) as nat,
            c,
            p,
        ),
{
    lemma_response_congruent(k, c, x, q);
    let s = response_spec(k as int, c as int, x as int, q as int) as nat;
    lemma_reconstruction(alpha, x, k, c, s, q, p);
    lemma_reconstruction(beta, x, k, c, s, q, p);
}

/// Soundness of the protocol: a response computed from a wrong secret
/// `xbad` never verifies against the honest keys and commitments, as long
/// as `alpha` generates a subgroup of order `q` and the challenge
/// separates the two secrets, `c*x != c*xbad (mod q)` — for `c = 0`, or
/// secrets congruent modulo `q`, the two responses coincide and no
/// verifier could tell them apart.
pub proof fn lemma_soundness(
    alpha: nat,
    beta: nat,
    x: nat,
    xbad: nat,
    k: nat,
    c: nat,
    q: nat,
    p: nat,
)
    requires
        p > 1,
        q > 0,
        crate::model::generator_of_order(alpha, q, p),
        (c * x) % q != (c * xbad) % q,
    ensures
        !verify_spec(
            mod_exp_spec(alpha, k, p),
            mod_exp_spec(beta, k, p),
            alpha,
            beta,
            mod_exp_spec(alpha, x, p),
            mod_exp_spec(beta, x, p),
            response_spec(k as int, c as int, xbad as int, q as int) as nat,
            c,
            p,
        ),
{
    lemma_response_congruent(k, c, xbad, q);
    let s = response_spec(k as int, c as int, xbad as int, q as int) as nat;
    if verify_spec(
        mod_exp_spec(alpha, k, p),
        mod_exp_spec(beta, k, p),
        alpha,
        beta,
        mod_exp_spec(alpha, x, p),
        mod_exp_spec(beta, x, p),
        s,
        c,
        p,
    ) {
        // The first condition says the commitment equals the
        // reconstruction, which is alpha^(s + c*x) mod p.
        lemma_recon_power(alpha, x, s, c, p);
        lemma_mod_bound(pow(alpha as int, s + c * x), p as int);
        assert(mod_exp_spec(alpha, k, p) == mod_exp_spec(alpha, s + c * x, p));
        // A generator of order q distinguishes exponents modulo q, so
        // s + c*x = k = s + c*xbad (mod q), cancelling to the excluded
        // congruence of the challenges.
        assert(k % q == (s + c * x) % q);
        lemma_mod_equivalence((s + c * x) as int, (s + c * xbad) as int, q as int);
        lemma_mod_equivalence((c * x) as int, (c * xbad) as int, q as int);
        assert(false);
    }
}

/// The powers of 4 modulo 23 over one period of length 11: pairwise
/// distinct, so the exponent can be read back from the power.
proof fn lemma_pow4_table(r: nat)
    requires
        r < 11,
    ensures
        pow(4, r) % 23 == (if r == 0 {
            1int
        } else if r == 1 {
            4
        } else if r == 2 {
            16
        } else if r == 3 {
            18
        } else if r == 4 {
            3
        } else if r == 5 {
            12
        } else if r == 6 {
            2
        } else if r == 7 {
            8
        } else if r == 8 {
            9
        } else if r == 9 {
            13
        } else {
            6
        }),
{
    reveal_with_fuel(pow, 12);
}

/// A concrete witness for the soundness hypothesis: `4` generates the
/// subgroup of order `11` modulo `23`, the fixed small group of the
/// protocol's worked example.
pub proof fn lemma_small_group_generator()
    ensures
        crate::model::generator_of_order(4, 11, 23),
{
    assert(mod_exp_spec(4, 11, 23) == 1) by {
        reveal_with_fuel(pow, 13);
    }
    assert forall|a: nat, b: nat|
        #[trigger] mod_exp_spec(4, a, 23) == #[trigger] mod_exp_spec(4, b, 23) implies a % 11
        == b % 11 by {
        let ra = a % 11;
        let rb = b % 11;
        lemma_mod_bound(a as int, 11);
        lemma_mod_bound(b as int, 11);
        lemma_pow_congruent(4, a, ra, 11, 23);
        lemma_pow_congruent(4, b, rb, 11, 23);
        lemma_pow4_table(ra);
        lemma_pow4_table(rb);
    }
}

} // verus!
