//! Arithmetic core of a Chaum-Pedersen zero-knowledge proof: modular
//! exponentiation, the prover's response, the verifier's check, and uniform
//! sampling below a bound, over arbitrary-precision unsigned integers.

use vstd::prelude::*;

pub mod bignum;
pub mod laws;
pub mod model;

use num_bigint::BigUint;
use crate::bignum::nat_of;

verus! {

/// A rejected parameter: the moduli and the sampling bound must be positive;
/// every other input, however unusual, is processed arithmetically.
#[derive(Clone, Copy, Debug, PartialEq, Eq, Structural)]
pub enum ParamError {
    /// A modulus was zero where a positive one is required.
    InvalidModulus,
    /// The sampling bound was zero.
    InvalidBound,
}

/// `n^exponent mod p` by fast exponentiation; the result always lies in
/// `[0, p)`.
pub fn exponetiate(n: &BigUint, exponent: &BigUint, p: &BigUint) -> (r: BigUint)
    requires
        nat_of(*p) > 0,
    ensures
        nat_of(r) == crate::model::mod_exp_spec(nat_of(*n), nat_of(*exponent), nat_of(*p)),
        nat_of(r) < nat_of(*p),
{
    let r = n.modpow(exponent, p);
    proof {
        vstd::arithmetic::div_mod::lemma_mod_bound(
            vstd::arithmetic::power::pow(nat_of(*n) as int, nat_of(*exponent)),
            nat_of(*p) as int,
        );
    }
    r
}

/// The prover's response `s = (k - c*x) mod q`. The operands are unsigned,
/// so the subtraction branches on the sign of `k - c*x`; when the reduced
/// magnitude `(c*x - k) mod q` is zero the answer is `0`, not `q`. The
/// result always lies in `[0, q)`.
pub fn solve(k: &BigUint, c: &BigUint, x: &BigUint, q: &BigUint) -> (s: BigUint)
    requires
        nat_of(*q) > 0,
    ensures
        nat_of(s) == crate::model::response_spec(
            nat_of(*k) as int,
            nat_of(*c) as int,
            nat_of(*x) as int,
            nat_of(*q) as int,
        ),
        nat_of(s) < nat_of(*q),
{
    let cx = crate::bignum::big_mul(c, x);
    let one = crate::bignum::big_from_u64(1);
    let ghost ki = nat_of(*k) as int;
    let ghost cxi = nat_of(cx) as int;
    let ghost qi = nat_of(*q) as int;
    if crate::bignum::big_ge(k, &cx) {
        let d = crate::bignum::big_sub(k, &cx);
        let s = d.modpow(&one, q);
        proof {
            vstd::arithmetic::power::lemma_pow1(nat_of(d) as int);
            vstd::arithmetic::div_mod::lemma_mod_bound(ki - cxi, qi);
        }
        s
    } else {
        let d = crate::bignum::big_sub(&cx, k);
        let m = d.modpow(&one, q);
        let ghost a = nat_of(d) as int;
        let ghost t = a / qi;
        let ghost mv = nat_of(m) as int;
        proof {
            vstd::arithmetic::power::lemma_pow1(a);
            vstd::arithmetic::div_mod::lemma_mod_bound(a, qi);
            vstd::arithmetic::div_mod::lemma_fundamental_div_mod(a, qi);
            assert(a == qi * t + mv);
        }
        let zero = crate::bignum::big_from_u64(0);
        if crate::bignum::big_eq(&m, &zero) {
            proof {
                assert((-t) * qi == ki - cxi) by (nonlinear_arith)
                    requires
                        a == qi * t + mv,
                        mv == 0,
                        a == cxi - ki,
                ;
                vstd::arithmetic::div_mod::lemma_mod_multiples_basic(-t, qi);
            }
            m
        } else {
            let s = crate::bignum::big_sub(q, &m);
            proof {
                assert(ki - cxi == (-t - 1) * qi + (qi - mv)) by (nonlinear_arith)
                    requires
                        a == qi * t + mv,
                        a == cxi - ki,
                ;
                vstd::arithmetic::div_mod::lemma_fundamental_div_mod_converse_mod(
                    ki - cxi,
                    qi,
                    -t - 1,
                    qi - mv,
                );
            }
            s
        }
    }
}

/// The verifier's decision: true iff `r1 = alpha^s * y1^c mod p` and
/// `r2 = beta^s * y2^c mod p`. The commitments `r1`, `r2` are compared
/// exactly, without reduction, as a prover would transmit them.
pub fn verify(
    r1: &BigUint,
    r2: &BigUint,
    alpha: &BigUint,
    beta: &BigUint,
    y1: &BigUint,
    y2: &BigUint,
    s: &BigUint,
    c: &BigUint,
    p: &BigUint,
) -> (res: bool)
    requires
        nat_of(*p) > 0,
    ensures
        res == crate::model::verify_spec(
            nat_of(*r1),
            nat_of(*r2),
            nat_of(*alpha),
            nat_of(*beta),
            nat_of(*y1),
            nat_of(*y2),
            nat_of(*s),
            nat_of(*c),
            nat_of(*p),
        ),
{
    let one = crate::bignum::big_from_u64(1);
    let ghost pi = nat_of(*p) as int;

    let as_p = exponetiate(alpha, s, p);
    let y1c_p = exponetiate(y1, c, p);
    let prod1 = crate::bignum::big_mul(&as_p, &y1c_p);
    let lhs1 = prod1.modpow(&one, p);
    let cond1 = crate::bignum::big_eq(r1, &lhs1);
    proof {
        let pa = vstd::arithmetic::power::pow(nat_of(*alpha) as int, nat_of(*s));
        let py = vstd::arithmetic::power::pow(nat_of(*y1) as int, nat_of(*c));
        vstd::arithmetic::power::lemma_pow1(nat_of(prod1) as int);
        vstd::arithmetic::div_mod::lemma_mul_mod_noop(pa, py, pi);
    }

    let bs_p = exponetiate(beta, s, p);
    let y2c_p = exponetiate(y2, c, p);
    let prod2 = crate::bignum::big_mul(&bs_p, &y2c_p);
    let lhs2 = prod2.modpow(&one, p);
    let cond2 = crate::bignum::big_eq(r2, &lhs2);
    proof {
        let pb = vstd::arithmetic::power::pow(nat_of(*beta) as int, nat_of(*s));
        let py = vstd::arithmetic::power::pow(nat_of(*y2) as int, nat_of(*c));
        vstd::arithmetic::power::lemma_pow1(nat_of(prod2) as int);
        vstd::arithmetic::div_mod::lemma_mul_mod_noop(pb, py, pi);
    }

    cond1 && cond2
}

/// A uniformly random value in `[0, bound)`, drawn by rejection sampling
/// from a freshly obtained handle to the thread-local cryptographically
/// secure generator.
pub fn generate_random_below(bound: &BigUint) -> (r: BigUint)
    requires
        nat_of(*bound) > 0,
    ensures
        nat_of(r) < nat_of(*bound),
{
    let mut rng = crate::bignum::fresh_rng();
    crate::bignum::big_random_below(&mut rng, bound)
}

/// `exponetiate` with the modulus tested first: a zero modulus is reported
/// as `InvalidModulus` instead of being ruled out by precondition.
pub fn exponetiate_checked(n: &BigUint, exponent: &BigUint, p: &BigUint) -> (r: Result<
    BigUint,
    ParamError,
>)
    ensures
        nat_of(*p) == 0 ==> (r is Err && r->Err_0 == ParamError::InvalidModulus),
        nat_of(*p) > 0 ==> (r is Ok && nat_of(r->Ok_0) == crate::model::mod_exp_spec(
            nat_of(*n),
            nat_of(*exponent),
            nat_of(*p),
        )),
{
    let zero = crate::bignum::big_from_u64(0);
    if crate::bignum::big_eq(p, &zero) {
        Err(ParamError::InvalidModulus)
    } else {
        Ok(exponetiate(n, exponent, p))
    }
}

/// `solve` with the modulus tested first: a zero `q` is reported as
/// `InvalidModulus` instead of being ruled out by precondition.
pub fn solve_checked(k: &BigUint, c: &BigUint, x: &BigUint, q: &BigUint) -> (r: Result<
    BigUint,
    ParamError,
>)
    ensures
        nat_of(*q) == 0 ==> (r is Err && r->Err_0 == ParamError::InvalidModulus),
        nat_of(*q) > 0 ==> (r is Ok && nat_of(r->Ok_0) == crate::model::response_spec(
            nat_of(*k) as int,
            nat_of(*c) as int,
            nat_of(*x) as int,
            nat_of(*q) as int,
        )),
{
    let zero = crate::bignum::big_from_u64(0);
    if crate::bignum::big_eq(q, &zero) {
        Err(ParamError::InvalidModulus)
    } else {
        Ok(solve(k, c, x, q))
    }
}

/// `generate_random_below` with the bound tested first: a zero bound is
/// reported as `InvalidBound` instead of being ruled out by precondition.
pub fn generate_random_below_checked(bound: &BigUint) -> (r: Result<BigUint, ParamError>)
    ensures
        nat_of(*bound) == 0 ==> (r is Err && r->Err_0 == ParamError::InvalidBound),
        nat_of(*bound) > 0 ==> (r is Ok && nat_of(r->Ok_0) < nat_of(*bound)),
{
    let zero = crate::bignum::big_from_u64(0);
    if crate::bignum::big_eq(bound, &zero) {
        Err(ParamError::InvalidBound)
    } else {
        Ok(generate_random_below(bound))
    }
}

} // verus!
