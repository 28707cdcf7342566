//! One round of the proof of knowledge. The prover claims to know the secret
//! `x` behind the public value `b = g^x mod p`. The verifier draws a secret
//! `y` and sends the challenge `c = g^y mod p`; the prover answers with
//! `c^x mod p`, which the verifier holds against `b^y mod p`.

use vstd::prelude::*;
use rand::rngs::StdRng;
use crate::modular::lemma_mod_exp_exponents_commute;
use crate::number::{power_mod, power_mod_defined, NeutrosophicNumber, Value};
use crate::random::{generate_random_neutrosophic, within_bits};

verus! {

/// Whether the round with the verifier's secret `y` accepts the prover's
/// secret `x`: the prover's answer to the challenge equals the value that the
/// verifier computes from `b`.
pub open spec fn round_accepts(g: Value, p: Value, b: Value, x: Value, y: Value) -> bool {
    power_mod(power_mod(g, y, p), x, p) == power_mod(b, y, p)
}

/// A prover who knows the secret is accepted, whatever the verifier draws:
/// if `b` is `g^x mod p`, the round accepts `x` for every `y`.
pub proof fn lemma_honest_prover_accepted(g: Value, p: Value, x: Value, y: Value)
    requires
        power_mod_defined(x, p),
        power_mod_defined(y, p),
    ensures
        round_accepts(g, p, power_mod(g, x, p), x, y),
{
    lemma_mod_exp_exponents_commute(g.a, x.a, y.a, p.a);
    lemma_mod_exp_exponents_commute(g.a + g.b, x.a + x.b, y.a + y.b, p.a + p.b);
}

/// Against the public value of the secret `x`, another secret is accepted
/// exactly when it answers the challenge as `x` does.
pub proof fn lemma_accepted_iff_same_answer(g: Value, p: Value, x: Value, other: Value, y: Value)
    requires
        power_mod_defined(x, p),
        power_mod_defined(y, p),
    ensures
        round_accepts(g, p, power_mod(g, x, p), other, y) <==> power_mod(
            power_mod(g, y, p),
            other,
            p,
        ) == power_mod(power_mod(g, y, p), x, p),
{
    lemma_honest_prover_accepted(g, p, x, y);
}

/// Plays the round with the verifier's secret `y` already drawn.
pub fn one_round_with_challenge(
    g: &NeutrosophicNumber,
    p: &NeutrosophicNumber,
    b: &NeutrosophicNumber,
    x: &NeutrosophicNumber,
    y: &NeutrosophicNumber,
) -> (accepted: bool)
    requires
        power_mod_defined(x@, p@),
        power_mod_defined(y@, p@),
    ensures
        accepted == round_accepts(g@, p@, b@, x@, y@),
{
    let c = g.pow_mod(y, p);
    let r_prover = c.pow_mod(x, p);
    let r_verifier = b.pow_mod(y, p);
    r_prover == r_verifier
}

/// Plays one round: draws the verifier's secret from `rng`, with parts of at
/// most `bit_size` bits, and says whether the prover's secret `x` is accepted.
pub fn neutrosophic_one_round_zkp_protocol(
    rng: &mut StdRng,
    bit_size: usize,
    g: &NeutrosophicNumber,
    p: &NeutrosophicNumber,
    b: &NeutrosophicNumber,
    x: &NeutrosophicNumber,
) -> (accepted: bool)
    requires
        power_mod_defined(x@, p@),
    ensures
        exists|y: Value|
            within_bits(y, bit_size as nat) && accepted == #[trigger] round_accepts(
                g@,
                p@,
                b@,
                x@,
                y,
            ),
        b@ == power_mod(g@, x@, p@) ==> accepted,
{
    let y = generate_random_neutrosophic(rng, bit_size);
    proof {
        lemma_honest_prover_accepted(g@, p@, x@, y@);
    }
    one_round_with_challenge(g, p, b, x, &y)
}

} // verus!
