//! Trusted boundary around `num_bigint`: the one place where this library
//! states, without proof, what the big-integer crate's operations do.
//!
//! Every contract here is over `nat_of`, the unbounded natural number that a
//! `BigUint` stands for. `num_bigint` keeps each `BigUint` in a canonical
//! digit representation, so equal values are equal numbers and the other way
//! round.

use vstd::prelude::*;
use num_bigint::BigUint;
use num_bigint::RandBigInt;

verus! {

#[verifier::external_type_specification]
#[verifier::external_body]
pub struct ExBigUint(BigUint);

#[verifier::external_type_specification]
#[verifier::external_body]
pub struct ExThreadRng(rand::rngs::ThreadRng);

/// The natural number that a `BigUint` holds.
pub uninterp spec fn nat_of(b: BigUint) -> nat;

/// Relies on `num_bigint::BigUint::modpow`: returns `self^exponent % modulus`
/// and panics when the modulus is zero.
pub assume_specification[ BigUint::modpow ](
    base: &BigUint,
    exponent: &BigUint,
    modulus: &BigUint,
) -> (r: BigUint)
    requires
        nat_of(*modulus) > 0,
    ensures
        nat_of(r) == crate::model::mod_exp_spec(nat_of(*base), nat_of(*exponent), nat_of(*modulus)),
;

/// Relies on the `Mul` impl of `num_bigint::BigUint`: the product of the two
/// values.
#[verifier::external_body]
pub(crate) fn big_mul(a: &BigUint, b: &BigUint) -> (r: BigUint)
    ensures
        nat_of(r) == nat_of(*a) * nat_of(*b),
{
    a * b
}

/// Relies on the `Sub` impl of `num_bigint::BigUint`: the difference of the
/// two values; it panics when the result would be negative.
#[verifier::external_body]
pub(crate) fn big_sub(a: &BigUint, b: &BigUint) -> (r: BigUint)
    requires
        nat_of(*a) >= nat_of(*b),
    ensures
        nat_of(r) == nat_of(*a) - nat_of(*b),
{
    a - b
}

/// Relies on the `Ord` impl of `num_bigint::BigUint`, which orders by the
/// held values.
#[verifier::external_body]
pub(crate) fn big_ge(a: &BigUint, b: &BigUint) -> (r: bool)
    ensures
        r == (nat_of(*a) >= nat_of(*b)),
{
    a >= b
}

/// Relies on the `PartialEq` impl of `num_bigint::BigUint`: representations
/// are canonical, so `==` decides equality of the held values.
#[verifier::external_body]
pub(crate) fn big_eq(a: &BigUint, b: &BigUint) -> (r: bool)
    ensures
        r == (nat_of(*a) == nat_of(*b)),
{
    a == b
}

/// Relies on the `From<u64>` impl of `num_bigint::BigUint`.
#[verifier::external_body]
pub(crate) fn big_from_u64(v: u64) -> (r: BigUint)
    ensures
        nat_of(r) == v as nat,
{
    BigUint::from(v)
}

/// Relies on `rand::thread_rng`: a fresh handle to the thread-local
/// cryptographically secure generator. Nothing can be promised of the values
/// it will produce.
#[verifier::external_body]
pub(crate) fn fresh_rng() -> rand::rngs::ThreadRng {
    rand::thread_rng()
}

/// Relies on `num_bigint::RandBigInt::gen_biguint_below`: rejection sampling
/// over the bit length of `bound`, so every outcome is below `bound`; it
/// panics when `bound` is zero.
#[verifier::external_body]
pub(crate) fn big_random_below(rng: &mut rand::rngs::ThreadRng, bound: &BigUint) -> (r: BigUint)
    requires
        nat_of(*bound) > 0,
    ensures
        nat_of(r) < nat_of(*bound),
{
    rng.gen_biguint_below(bound)
}

} // verus!
