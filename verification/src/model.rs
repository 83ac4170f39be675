//! Mathematical model of the protocol: what each operation of the library
//! means as a statement about unbounded integers.

use vstd::prelude::*;
use vstd::arithmetic::power::pow;

verus! {

/// `base^exponent mod modulus` as a mathematical value: the meaning of
/// every exponentiation this library performs.
pub open spec fn mod_exp_spec(base: nat, exponent: nat, modulus: nat) -> nat
    recommends
        modulus > 0,
{
    (pow(base as int, exponent) % (modulus as int)) as nat
}

/// The prover's response `(k - c*x) mod q`, computed over the signed
/// integers: the `%` of `int` with a positive divisor already lands in
/// `[0, q)`, also when `k - c*x` is negative.
pub open spec fn response_spec(k: int, c: int, x: int, q: int) -> int
    recommends
        q > 0,
{
    (k - c * x) % q
}

/// `g` generates a subgroup of order `q` modulo `p`: raising it to `q`
/// gives `1`, and its powers distinguish exponents up to congruence
/// modulo `q`. A prime-order subgroup's generator has both properties.
pub open spec fn generator_of_order(g: nat, q: nat, p: nat) -> bool
    recommends
        p > 1,
        q > 0,
{
    &&& mod_exp_spec(g, q, p) == 1
    &&& forall|a: nat, b: nat|
        #[trigger] mod_exp_spec(g, a, p) == #[trigger] mod_exp_spec(g, b, p) ==> a % q == b % q
}

/// The verifier's decision: both commitments must equal the reconstruction
/// from the response and the challenge,
/// `r1 = alpha^s * y1^c mod p` and `r2 = beta^s * y2^c mod p`.
pub open spec fn verify_spec(
    r1: nat,
    r2: nat,
    alpha: nat,
    beta: nat,
    y1: nat,
    y2: nat,
    s: nat,
    c: nat,
    p: nat,
) -> bool
    recommends
        p > 0,
{
    &&& r1 == (pow(alpha as int, s) * pow(y1 as int, c)) % (p as int)
    &&& r2 == (pow(beta as int, s) * pow(y2 as int, c)) % (p as int)
}

} // verus!
