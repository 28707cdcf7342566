//! The operations that are left to `num-bigint` and `rand`. Nothing in this
//! file is proved: each function states what the outside routine it calls is
//! documented to compute.
//!
//! Integers cross this boundary as a sign and little-endian base-2^32 digits:
//! on the way in through `BigInt::from_slice`, which accepts superfluous zero
//! digits and either sign for zero, and on the way out through
//! `BigInt::to_u32_digits`.

use vstd::prelude::*;
use vstd::arithmetic::power2::pow2;
use num_bigint::{BigInt, RandBigInt, Sign};
use rand::rngs::StdRng;
use crate::digits::{magnitude, signed_value};
use crate::integer::BigInteger;
use crate::modular::mod_exp;

verus! {

/// The standard generator of `rand`, `rand::rngs::StdRng`. Its state is opaque.
#[verifier::external_type_specification]
#[verifier::external_body]
pub struct ExStdRng(StdRng);

/// `BigInt + BigInt` of `num-bigint`: the sign and the little-endian base-2^32
/// digits of the sum of the two integers.
#[verifier::external_body]
pub(crate) fn sum_raw(x: &BigInteger, y: &BigInteger) -> (r: (bool, Vec<u32>))
    ensures
        signed_value(r.0, r.1@) == x@ + y@,
{
    let x = BigInt::from_slice(if x.negative { Sign::Minus } else { Sign::Plus }, &x.digits);
    let y = BigInt::from_slice(if y.negative { Sign::Minus } else { Sign::Plus }, &y.digits);
    let (sign, digits) = (x + y).to_u32_digits();
    match sign {
        Sign::Minus => (true, digits),
        Sign::NoSign => (false, digits),
        Sign::Plus => (false, digits),
    }
}

/// `BigInt - BigInt` of `num-bigint`: the sign and the little-endian base-2^32
/// digits of the first integer less the second.
#[verifier::external_body]
pub(crate) fn difference_raw(x: &BigInteger, y: &BigInteger) -> (r: (bool, Vec<u32>))
    ensures
        signed_value(r.0, r.1@) == x@ - y@,
{
    let x = BigInt::from_slice(if x.negative { Sign::Minus } else { Sign::Plus }, &x.digits);
    let y = BigInt::from_slice(if y.negative { Sign::Minus } else { Sign::Plus }, &y.digits);
    let (sign, digits) = (x - y).to_u32_digits();
    match sign {
        Sign::Minus => (true, digits),
        Sign::NoSign => (false, digits),
        Sign::Plus => (false, digits),
    }
}

/// `BigInt * BigInt` of `num-bigint`: the sign and the little-endian base-2^32
/// digits of the product of the two integers.
#[verifier::external_body]
pub(crate) fn product_raw(x: &BigInteger, y: &BigInteger) -> (r: (bool, Vec<u32>))
    ensures
        signed_value(r.0, r.1@) == x@ * y@,
{
    let x = BigInt::from_slice(if x.negative { Sign::Minus } else { Sign::Plus }, &x.digits);
    let y = BigInt::from_slice(if y.negative { Sign::Minus } else { Sign::Plus }, &y.digits);
    let (sign, digits) = (x * y).to_u32_digits();
    match sign {
        Sign::Minus => (true, digits),
        Sign::NoSign => (false, digits),
        Sign::Plus => (false, digits),
    }
}

/// `BigInt::modpow` of `num-bigint`: the sign and the little-endian base-2^32
/// digits of `base` to the power `exp`, reduced by `modulus` so that the
/// result has the sign of the modulus. The routine panics on a negative
/// exponent and on a zero modulus, which the precondition leaves out.
#[verifier::external_body]
pub(crate) fn modpow_raw(base: &BigInteger, exp: &BigInteger, modulus: &BigInteger) -> (r: (
    bool,
    Vec<u32>,
))
    requires
        exp@ >= 0,
        modulus@ != 0,
    ensures
        signed_value(r.0, r.1@) == mod_exp(base@, exp@, modulus@),
{
    let b = BigInt::from_slice(if base.negative { Sign::Minus } else { Sign::Plus }, &base.digits);
    let e = BigInt::from_slice(if exp.negative { Sign::Minus } else { Sign::Plus }, &exp.digits);
    let m_sign = if modulus.negative { Sign::Minus } else { Sign::Plus };
    let m = BigInt::from_slice(m_sign, &modulus.digits);
    let (sign, digits) = b.modpow(&e, &m).to_u32_digits();
    match sign {
        Sign::Minus => (true, digits),
        Sign::NoSign => (false, digits),
        Sign::Plus => (false, digits),
    }
}

/// `RandBigInt::gen_biguint` of `num-bigint`, drawing from `rng`: the
/// little-endian base-2^32 digits of a random natural number of at most
/// `bit_size` bits. Which number comes out is not stated.
#[verifier::external_body]
pub(crate) fn random_digits(rng: &mut StdRng, bit_size: u64) -> (r: Vec<u32>)
    ensures
        magnitude(r@) < pow2(bit_size as nat),
{
    rng.gen_biguint(bit_size).to_u32_digits()
}

} // verus!
