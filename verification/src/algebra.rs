//! The algebra of neutrosophic numbers: what holds of sums and products.

use vstd::prelude::*;
use crate::number::{product, sum, Value};

verus! {

/// Addition is commutative: `x + y == y + x`.
pub proof fn lemma_sum_commutative(x: Value, y: Value)
    ensures
        sum(x, y) == sum(y, x),
{
}

/// Addition is associative: `(x + y) + z == x + (y + z)`.
pub proof fn lemma_sum_associative(x: Value, y: Value, z: Value)
    ensures
        sum(sum(x, y), z) == sum(x, sum(y, z)),
{
}

/// Multiplication is commutative: `x * y == y * x`.
pub proof fn lemma_product_commutative(x: Value, y: Value)
    ensures
        product(x, y) == product(y, x),
{
    assert(x.a * y.a == y.a * x.a) by (nonlinear_arith);
    assert(x.a * y.b == y.b * x.a) by (nonlinear_arith);
    assert(x.b * y.a == y.a * x.b) by (nonlinear_arith);
    assert(x.b * y.b == y.b * x.b) by (nonlinear_arith);
}

/// Multiplication is associative: `(x * y) * z == x * (y * z)`.
pub proof fn lemma_product_associative(x: Value, y: Value, z: Value)
    ensures
        product(product(x, y), z) == product(x, product(y, z)),
{
    let (a, b, c, d, e, f) = (x.a, x.b, y.a, y.b, z.a, z.b);
    let m = a * d + b * c + b * d;
    let n = c * f + d * e + d * f;
    assert((a * c) * e == a * (c * e)) by (nonlinear_arith);
    assert((a * c) * f == a * (c * f)) by (nonlinear_arith);
    assert((a * d) * e == a * (d * e)) by (nonlinear_arith);
    assert((a * d) * f == a * (d * f)) by (nonlinear_arith);
    assert((b * c) * e == b * (c * e)) by (nonlinear_arith);
    assert((b * c) * f == b * (c * f)) by (nonlinear_arith);
    assert((b * d) * e == b * (d * e)) by (nonlinear_arith);
    assert((b * d) * f == b * (d * f)) by (nonlinear_arith);
    assert(m * e == (a * d) * e + (b * c) * e + (b * d) * e) by (nonlinear_arith)
        requires
            m == a * d + b * c + b * d,
    ;
    assert(m * f == (a * d) * f + (b * c) * f + (b * d) * f) by (nonlinear_arith)
        requires
            m == a * d + b * c + b * d,
    ;
    assert(a * n == a * (c * f) + a * (d * e) + a * (d * f)) by (nonlinear_arith)
        requires
            n == c * f + d * e + d * f,
    ;
    assert(b * n == b * (c * f) + b * (d * e) + b * (d * f)) by (nonlinear_arith)
        requires
            n == c * f + d * e + d * f,
    ;
}

/// Multiplication distributes over addition, on either side:
/// `x * (y + z) == x * y + x * z` and `(y + z) * x == y * x + z * x`.
pub proof fn lemma_product_distributes_over_sum(x: Value, y: Value, z: Value)
    ensures
        product(x, sum(y, z)) == sum(product(x, y), product(x, z)),
        product(sum(y, z), x) == sum(product(y, x), product(z, x)),
{
    let (a, b, c, d, e, f) = (x.a, x.b, y.a, y.b, z.a, z.b);
    assert(a * (c + e) == a * c + a * e) by (nonlinear_arith);
    assert(a * (d + f) + b * (c + e) + b * (d + f) == (a * d + b * c + b * d) + (a * f + b * e
        + b * f)) by (nonlinear_arith);
    lemma_product_commutative(sum(y, z), x);
    lemma_product_commutative(y, x);
    lemma_product_commutative(z, x);
}

} // verus!
