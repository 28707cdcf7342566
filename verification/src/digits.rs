//! The meaning of a sign and a sequence of base-2^32 digits.

use vstd::prelude::*;

verus! {

/// The natural number that `digits` denotes, least significant digit first:
/// `digits[0] + 2^32 * digits[1] + 2^64 * digits[2] + ...`.
pub open spec fn magnitude(digits: Seq<u32>) -> nat
    decreases digits.len(),
{
    if digits.len() == 0 {
        0
    } else {
        (digits[0] as nat) + 0x1_0000_0000 * magnitude(digits.drop_first())
    }
}

/// The integer that a sign flag and a magnitude denote. Zero has both signs.
pub open spec fn signed_value(negative: bool, digits: Seq<u32>) -> int {
    if negative {
        -(magnitude(digits) as int)
    } else {
        magnitude(digits) as int
    }
}

/// No superfluous digit: the most significant digit, if there is one, is not zero.
pub open spec fn normalized(digits: Seq<u32>) -> bool {
    digits.len() > 0 ==> digits.last() != 0
}

/// A zero digit at the most significant end does not change the magnitude.
pub proof fn lemma_magnitude_push_zero(digits: Seq<u32>)
    ensures
        magnitude(digits.push(0)) == magnitude(digits),
    decreases digits.len(),
{
    let longer = digits.push(0);
    if digits.len() == 0 {
        assert(magnitude(longer.drop_first()) == 0);
    } else {
        assert(longer.drop_first() =~= digits.drop_first().push(0));
        lemma_magnitude_push_zero(digits.drop_first());
    }
}

/// A normalized sequence with at least one digit denotes a positive number.
pub proof fn lemma_normalized_nonzero(digits: Seq<u32>)
    requires
        digits.len() > 0,
        normalized(digits),
    ensures
        magnitude(digits) > 0,
    decreases digits.len(),
{
    if digits.len() == 1 {
        assert(digits.drop_first().len() == 0);
    } else {
        let rest = digits.drop_first();
        assert(rest.last() == digits.last());
        lemma_normalized_nonzero(rest);
    }
}

/// Normalized digit sequences are canonical: two of them that denote the same
/// number are the same sequence.
pub proof fn lemma_magnitude_injective(x: Seq<u32>, y: Seq<u32>)
    requires
        normalized(x),
        normalized(y),
        magnitude(x) == magnitude(y),
    ensures
        x == y,
    decreases x.len(),
{
    if x.len() == 0 {
        if y.len() > 0 {
            lemma_normalized_nonzero(y);
        }
        assert(x =~= y);
    } else if y.len() == 0 {
        lemma_normalized_nonzero(x);
    } else {
        let xr = x.drop_first();
        let yr = y.drop_first();
        assert(x[0] == y[0] && magnitude(xr) == magnitude(yr));
        if xr.len() > 0 {
            assert(xr.last() == x.last());
        }
        if yr.len() > 0 {
            assert(yr.last() == y.last());
        }
        lemma_magnitude_injective(xr, yr);
        assert forall|i: int| 0 <= i < x.len() implies x[i] == y[i] by {
            if i > 0 {
                assert(x[i] == xr[i - 1]);
                assert(y[i] == yr[i - 1]);
            }
        }
        assert(x =~= y);
    }
}

} // verus!
