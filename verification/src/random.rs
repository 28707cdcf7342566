//! Random neutrosophic numbers.

use vstd::prelude::*;
use vstd::arithmetic::power2::pow2;
use rand::rngs::StdRng;
use crate::backend::random_digits;
use crate::integer::BigInteger;
use crate::number::{NeutrosophicNumber, Value};

verus! {

/// Both parts are natural numbers of at most `bits` bits.
pub open spec fn within_bits(x: Value, bits: nat) -> bool {
    &&& 0 <= x.a < pow2(bits)
    &&& 0 <= x.b < pow2(bits)
}

/// Draws a neutrosophic number from `rng`. Each part is drawn on its own and
/// is a natural number of at most `bit_size` bits.
pub fn generate_random_neutrosophic(rng: &mut StdRng, bit_size: usize) -> (r: NeutrosophicNumber)
    ensures
        within_bits(r@, bit_size as nat),
{
    let bits = bit_size as u64;
    let a = BigInteger::from_parts(false, random_digits(rng, bits));
    let b = BigInteger::from_parts(false, random_digits(rng, bits));
    NeutrosophicNumber::new(a, b)
}

} // verus!
