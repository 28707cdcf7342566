//! Neutrosophic numbers and their arithmetic.

use vstd::prelude::*;
use crate::integer::BigInteger;
use crate::modular::mod_exp;

verus! {

/// The mathematical neutrosophic number `a + bI`.
pub struct Value {
    pub a: int,
    pub b: int,
}

/// `(a1 + b1 I) + (a2 + b2 I) = (a1 + a2) + (b1 + b2) I`.
pub open spec fn sum(x: Value, y: Value) -> Value {
    Value { a: x.a + y.a, b: x.b + y.b }
}

/// `(a1 + b1 I) * (a2 + b2 I) = a1 a2 + (a1 b2 + b1 a2 + b1 b2) I`, which is
/// what distributing the product gives when `I * I = I`.
pub open spec fn product(x: Value, y: Value) -> Value {
    Value { a: x.a * y.a, b: x.a * y.b + x.b * y.a + x.b * y.b }
}

/// A neutrosophic number is positive when both its real part and the sum of
/// its two parts are.
pub open spec fn positive(x: Value) -> bool {
    x.a > 0 && x.a + x.b > 0
}

/// Whether `power_mod` is defined for this exponent and modulus: neither
/// exponent is negative and neither modulus is zero.
pub open spec fn power_mod_defined(exp: Value, modulus: Value) -> bool {
    &&& exp.a >= 0
    &&& exp.a + exp.b >= 0
    &&& modulus.a != 0
    &&& modulus.a + modulus.b != 0
}

/// Modular exponentiation of neutrosophic numbers. The real part is the
/// modular power of the real parts. The indeterminate part is what the modular
/// power of the sums of both parts has more than the real part.
pub open spec fn power_mod(base: Value, exp: Value, modulus: Value) -> Value {
    let real_part = mod_exp(base.a, exp.a, modulus.a);
    let combined = mod_exp(base.a + base.b, exp.a + exp.b, modulus.a + modulus.b);
    Value { a: real_part, b: combined - real_part }
}

/// A neutrosophic number `a + bI` with integer parts of any size.
#[derive(Debug)]
pub struct NeutrosophicNumber {
    /// The real part.
    pub a: BigInteger,
    /// The coefficient of the indeterminate `I`.
    pub b: BigInteger,
}

impl View for NeutrosophicNumber {
    type V = Value;

    open spec fn view(&self) -> Value {
        Value { a: self.a@, b: self.b@ }
    }
}

impl NeutrosophicNumber {
    /// The number `a + bI`.
    pub fn new(a: BigInteger, b: BigInteger) -> (r: NeutrosophicNumber)
        ensures
            r.a == a,
            r.b == b,
    {
        NeutrosophicNumber { a, b }
    }

    /// Whether this number is positive.
    pub fn is_positive(&self) -> (r: bool)
        ensures
            r == positive(self@),
    {
        self.a.is_positive() && self.a.add(&self.b).is_positive()
    }

    /// Whether `pow_mod` can be called with this exponent and modulus.
    pub fn pow_mod_defined(exp: &NeutrosophicNumber, modulus: &NeutrosophicNumber) -> (r: bool)
        ensures
            r == power_mod_defined(exp@, modulus@),
    {
        !exp.a.is_negative() && !exp.a.add(&exp.b).is_negative() && !modulus.a.is_zero()
            && !modulus.a.add(&modulus.b).is_zero()
    }

    /// This number to the power `exp`, reduced by `modulus`.
    pub fn pow_mod(&self, exp: &NeutrosophicNumber, modulus: &NeutrosophicNumber) -> (r:
        NeutrosophicNumber)
        requires
            power_mod_defined(exp@, modulus@),
        ensures
            r@ == power_mod(self@, exp@, modulus@),
    {
        let real_part = self.a.modpow(&exp.a, &modulus.a);
        let base_sum = self.a.add(&self.b);
        let exp_sum = exp.a.add(&exp.b);
        let modulus_sum = modulus.a.add(&modulus.b);
        let combined = base_sum.modpow(&exp_sum, &modulus_sum);
        let indeterminate = combined.sub(&real_part);
        NeutrosophicNumber::new(real_part, indeterminate)
    }

    /// The sum of two numbers.
    pub fn add(self, other: NeutrosophicNumber) -> (r: NeutrosophicNumber)
        ensures
            r@ == sum(self@, other@),
    {
        NeutrosophicNumber::new(self.a.add(&other.a), self.b.add(&other.b))
    }

    /// The product of two numbers.
    pub fn multiply(self, other: NeutrosophicNumber) -> (r: NeutrosophicNumber)
        ensures
            r@ == product(self@, other@),
    {
        let ac = self.a.mul(&other.a);
        let ad = self.a.mul(&other.b);
        let bc = self.b.mul(&other.a);
        let bd = self.b.mul(&other.b);
        NeutrosophicNumber::new(ac, ad.add(&bc).add(&bd))
    }
}

impl Clone for NeutrosophicNumber {
    fn clone(&self) -> (r: NeutrosophicNumber)
        ensures
            r@ == self@,
    {
        NeutrosophicNumber { a: self.a.clone(), b: self.b.clone() }
    }
}

impl PartialEq for NeutrosophicNumber {
    /// Equality part by part.
    fn eq(&self, other: &NeutrosophicNumber) -> (r: bool) {
        self.a == other.a && self.b == other.b
    }
}

impl vstd::std_specs::cmp::PartialEqSpecImpl for NeutrosophicNumber {
    open spec fn obeys_eq_spec() -> bool {
        true
    }

    open spec fn eq_spec(&self, other: &NeutrosophicNumber) -> bool {
        self@ == other@
    }
}

impl Eq for NeutrosophicNumber {

}

} // verus!
