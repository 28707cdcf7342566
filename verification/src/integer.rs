//! Arbitrary-precision signed integers as plain data.

use vstd::prelude::*;
use crate::backend::{difference_raw, modpow_raw, product_raw, sum_raw};
use crate::digits::{
    lemma_magnitude_injective, lemma_magnitude_push_zero, lemma_normalized_nonzero, magnitude,
    normalized, signed_value,
};
use crate::modular::mod_exp;

verus! {

/// An integer of any size, held as a sign and its normalized magnitude in
/// little-endian base-2^32 digits. Zero has no digits and is not negative, so
/// every integer has exactly one representation.
#[derive(Debug)]
pub struct BigInteger {
    pub(crate) negative: bool,
    pub(crate) digits: Vec<u32>,
}

impl View for BigInteger {
    type V = int;

    /// The integer that this value denotes.
    closed spec fn view(&self) -> int {
        signed_value(self.negative, self.digits@)
    }
}

impl BigInteger {
    #[verifier::type_invariant]
    spec fn canonical(self) -> bool {
        &&& normalized(self.digits@)
        &&& self.digits@.len() == 0 ==> !self.negative
    }

    /// Builds the integer with the given sign and magnitude. Superfluous zero
    /// digits are dropped, and the sign of zero is ignored.
    pub fn from_parts(negative: bool, digits: Vec<u32>) -> (r: BigInteger)
        ensures
            r@ == signed_value(negative, digits@),
    {
        let ghost given = digits@;
        let mut digits = digits;
        while digits.len() > 0 && digits[digits.len() - 1] == 0
            invariant
                magnitude(digits@) == magnitude(given),
            decreases digits.len(),
        {
            let ghost before = digits@;
            digits.pop();
            proof {
                assert(before =~= digits@.push(0));
                lemma_magnitude_push_zero(digits@);
            }
        }
        let negative = negative && digits.len() > 0;
        BigInteger { negative, digits }
    }

    /// The integer with the value of `v`.
    pub fn from_i64(v: i64) -> (r: BigInteger)
        ensures
            r@ == v,
    {
        let m: u64 = if v >= 0 {
            v as u64
        } else if v == i64::MIN {
            0x8000_0000_0000_0000
        } else {
            (-v) as u64
        };
        let low: u32 = (m % 0x1_0000_0000) as u32;
        let high: u32 = (m / 0x1_0000_0000) as u32;
        let mut digits: Vec<u32> = Vec::new();
        digits.push(low);
        digits.push(high);
        proof {
            let rest = digits@.drop_first();
            assert(magnitude(rest.drop_first()) == 0);
            assert(magnitude(rest) == high as nat);
        }
        BigInteger::from_parts(v < 0, digits)
    }

    /// Whether this integer is less than zero.
    pub fn is_negative(&self) -> (r: bool)
        ensures
            r == (self@ < 0),
    {
        proof {
            use_type_invariant(self);
            if self.digits@.len() > 0 {
                lemma_normalized_nonzero(self.digits@);
            }
        }
        self.negative
    }

    /// Whether this integer is zero.
    pub fn is_zero(&self) -> (r: bool)
        ensures
            r == (self@ == 0),
    {
        proof {
            use_type_invariant(self);
            if self.digits@.len() > 0 {
                lemma_normalized_nonzero(self.digits@);
            }
        }
        self.digits.len() == 0
    }

    /// Whether this integer is greater than zero.
    pub fn is_positive(&self) -> (r: bool)
        ensures
            r == (self@ > 0),
    {
        proof {
            use_type_invariant(self);
            if self.digits@.len() > 0 {
                lemma_normalized_nonzero(self.digits@);
            }
        }
        !self.negative && self.digits.len() > 0
    }

    /// The digits of the absolute value, least significant first, without
    /// superfluous zeros. Zero has no digits.
    pub fn digits(&self) -> (r: &Vec<u32>)
        ensures
            normalized(r@),
            magnitude(r@) == (if self@ < 0 { -self@ } else { self@ }),
    {
        proof {
            use_type_invariant(self);
        }
        &self.digits
    }

    /// Two canonical representations of one integer are the same.
    proof fn lemma_same_value_same_parts(x: BigInteger, y: BigInteger)
        requires
            x.canonical(),
            y.canonical(),
            x@ == y@,
        ensures
            x.negative == y.negative,
            x.digits@ == y.digits@,
    {
        if x.digits@.len() > 0 {
            lemma_normalized_nonzero(x.digits@);
        }
        if y.digits@.len() > 0 {
            lemma_normalized_nonzero(y.digits@);
        }
        lemma_magnitude_injective(x.digits@, y.digits@);
    }

    /// The sum of two integers.
    pub fn add(&self, other: &BigInteger) -> (r: BigInteger)
        ensures
            r@ == self@ + other@,
    {
        let (negative, digits) = sum_raw(self, other);
        BigInteger::from_parts(negative, digits)
    }

    /// This integer less `other`.
    pub fn sub(&self, other: &BigInteger) -> (r: BigInteger)
        ensures
            r@ == self@ - other@,
    {
        let (negative, digits) = difference_raw(self, other);
        BigInteger::from_parts(negative, digits)
    }

    /// The product of two integers.
    pub fn mul(&self, other: &BigInteger) -> (r: BigInteger)
        ensures
            r@ == self@ * other@,
    {
        let (negative, digits) = product_raw(self, other);
        BigInteger::from_parts(negative, digits)
    }

    /// This integer to the power `exp`, reduced by `modulus`. The result has
    /// the sign of the modulus.
    pub fn modpow(&self, exp: &BigInteger, modulus: &BigInteger) -> (r: BigInteger)
        requires
            exp@ >= 0,
            modulus@ != 0,
        ensures
            r@ == mod_exp(self@, exp@, modulus@),
    {
        let (negative, digits) = modpow_raw(self, exp, modulus);
        BigInteger::from_parts(negative, digits)
    }
}

impl Clone for BigInteger {
    fn clone(&self) -> (r: BigInteger)
        ensures
            r@ == self@,
    {
        proof {
            use_type_invariant(self);
        }
        BigInteger { negative: self.negative, digits: self.digits.clone() }
    }
}

impl PartialEq for BigInteger {
    /// Equality of the integers denoted.
    fn eq(&self, other: &BigInteger) -> (r: bool) {
        proof {
            use_type_invariant(self);
            use_type_invariant(other);
            if self@ == other@ {
                BigInteger::lemma_same_value_same_parts(*self, *other);
            }
        }
        if self.negative != other.negative || self.digits.len() != other.digits.len() {
            return false;
        }
        let n = self.digits.len();
        let mut i: usize = 0;
        while i < n
            invariant
                i <= n,
                n == self.digits@.len(),
                n == other.digits@.len(),
                self@ == other@ ==> self.digits@ == other.digits@,
                forall|j: int| 0 <= j < i ==> self.digits@[j] == other.digits@[j],
            decreases n - i,
        {
            if self.digits[i] != other.digits[i] {
                return false;
            }
            i += 1;
        }
        assert(self.digits@ =~= other.digits@);
        true
    }
}

impl vstd::std_specs::cmp::PartialEqSpecImpl for BigInteger {
    open spec fn obeys_eq_spec() -> bool {
        true
    }

    open spec fn eq_spec(&self, other: &BigInteger) -> bool {
        self@ == other@
    }
}

impl Eq for BigInteger {

}

} // verus!
