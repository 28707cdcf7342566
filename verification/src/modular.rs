//! Modular exponentiation on mathematical integers.

use vstd::prelude::*;
use vstd::arithmetic::div_mod::{lemma_mod_twice, lemma_sub_mod_noop};
use vstd::arithmetic::power::{lemma_pow_mod_noop, lemma_pow_multiplies, pow};

verus! {

/// The remainder of `x` on division by `m` that has the sign of the divisor:
/// it lies in `[0, m)` for a positive `m` and in `(m, 0]` for a negative one.
/// Meaningless for `m == 0`.
pub open spec fn floor_mod(x: int, m: int) -> int {
    if m > 0 {
        x % m
    } else {
        -((-x) % (-m))
    }
}

/// `base` to the power `exp`, reduced by `modulus` with the sign of the
/// modulus. Meaningful for `exp >= 0` and `modulus != 0`.
pub open spec fn mod_exp(base: int, exp: int, modulus: int) -> int {
    floor_mod(pow(base, exp as nat), modulus)
}

/// The absolute value of a modulus.
pub open spec fn modulus_size(m: int) -> int {
    if m > 0 {
        m
    } else {
        -m
    }
}

/// Congruent numbers have congruent negations.
proof fn lemma_negation_congruent(a: int, b: int, n: int)
    requires
        n > 0,
        a % n == b % n,
    ensures
        (-a) % n == (-b) % n,
{
    lemma_sub_mod_noop(0, a, n);
    lemma_sub_mod_noop(0, b, n);
}

/// `floor_mod(x, m)` is congruent to `x` modulo the absolute value of `m`.
pub proof fn lemma_floor_mod_congruent(x: int, m: int)
    requires
        m != 0,
    ensures
        floor_mod(x, m) % modulus_size(m) == x % modulus_size(m),
{
    let n = modulus_size(m);
    if m > 0 {
        lemma_mod_twice(x, m);
    } else {
        let q = (-x) % n;
        lemma_mod_twice(-x, n);
        lemma_negation_congruent(q, -x, n);
    }
}

/// `floor_mod(x, m)` depends only on the class of `x` modulo the absolute
/// value of `m`.
pub proof fn lemma_floor_mod_of_congruent(a: int, b: int, m: int)
    requires
        m != 0,
        a % modulus_size(m) == b % modulus_size(m),
    ensures
        floor_mod(a, m) == floor_mod(b, m),
{
    if m < 0 {
        lemma_negation_congruent(a, b, -m);
    }
}

/// A modular power of a modular power is the modular power by the product of
/// the exponents.
pub proof fn lemma_mod_exp_of_mod_exp(g: int, y: int, x: int, m: int)
    requires
        y >= 0,
        x >= 0,
        m != 0,
    ensures
        y * x >= 0,
        mod_exp(mod_exp(g, y, m), x, m) == mod_exp(g, y * x, m),
{
    let n = modulus_size(m);
    let inner = pow(g, y as nat);
    let reduced = floor_mod(inner, m);
    lemma_floor_mod_congruent(inner, m);
    lemma_pow_mod_noop(reduced, x as nat, n);
    lemma_pow_mod_noop(inner, x as nat, n);
    lemma_floor_mod_of_congruent(pow(reduced, x as nat), pow(inner, x as nat), m);
    lemma_pow_multiplies(g, y as nat, x as nat);
    assert((y as nat) * (x as nat) == (y * x) as nat) by (nonlinear_arith)
        requires
            y >= 0,
            x >= 0,
    ;
    assert(y * x >= 0) by (nonlinear_arith)
        requires
            y >= 0,
            x >= 0,
    ;
}

/// Two modular exponentiations by the same modulus can be made in either
/// order: `(g^y mod m)^x mod m == (g^x mod m)^y mod m`.
pub proof fn lemma_mod_exp_exponents_commute(g: int, x: int, y: int, m: int)
    requires
        x >= 0,
        y >= 0,
        m != 0,
    ensures
        mod_exp(mod_exp(g, y, m), x, m) == mod_exp(mod_exp(g, x, m), y, m),
{
    lemma_mod_exp_of_mod_exp(g, y, x, m);
    lemma_mod_exp_of_mod_exp(g, x, y, m);
    assert(y * x == x * y) by (nonlinear_arith);
}

} // verus!
