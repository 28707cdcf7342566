//! A whole demonstration of the proof of knowledge: fresh parameters, one
//! round with a prover who knows the secret and one with a prover who does
//! not.

use vstd::prelude::*;
use vstd::arithmetic::power2::lemma2_to64;
use rand::rngs::StdRng;
use crate::number::{positive, power_mod, NeutrosophicNumber, Value};
use crate::protocol::{neutrosophic_one_round_zkp_protocol, round_accepts};
use crate::random::{generate_random_neutrosophic, within_bits};

verus! {

/// The parameters that a demonstration drew and what its two rounds gave.
#[derive(Debug)]
pub struct Demonstration {
    /// The public generator.
    pub g: NeutrosophicNumber,
    /// The public modulus.
    pub p: NeutrosophicNumber,
    /// The public value `g^x mod p` of the secret `x_secret`.
    pub b: NeutrosophicNumber,
    /// The secret of the prover who knows it.
    pub x_secret: NeutrosophicNumber,
    /// The secret that the other prover made up.
    pub x_fake: NeutrosophicNumber,
    /// Whether the round accepted the prover who knows the secret.
    pub honest_accepted: bool,
    /// Whether the round accepted the prover who made a secret up.
    pub impostor_accepted: bool,
}

impl Demonstration {
    /// What holds of every demonstration with parameters of at most `bits`
    /// bits: the public parameters are positive, the public value belongs to
    /// the secret, the prover who knows the secret was accepted, and the
    /// other prover's round was played with some secret of the verifier.
    pub open spec fn sound(&self, bits: nat) -> bool {
        &&& within_bits(self.p@, bits)
        &&& within_bits(self.g@, bits)
        &&& within_bits(self.x_secret@, bits)
        &&& within_bits(self.x_fake@, bits)
        &&& positive(self.p@)
        &&& positive(self.g@)
        &&& self.b@ == power_mod(self.g@, self.x_secret@, self.p@)
        &&& self.honest_accepted
        &&& exists|y: Value|
            within_bits(y, bits) && self.impostor_accepted == #[trigger] round_accepts(
                self.g@,
                self.p@,
                self.b@,
                self.x_fake@,
                y,
            )
    }
}

/// The public value `g^x mod p` of the secret `x`, for public parameters that
/// are both positive; none for others.
pub fn derive_public_value(
    g: &NeutrosophicNumber,
    p: &NeutrosophicNumber,
    x: &NeutrosophicNumber,
) -> (r: Option<NeutrosophicNumber>)
    requires
        x@.a >= 0,
        x@.a + x@.b >= 0,
    ensures
        r is Some <==> positive(p@) && positive(g@),
        r is Some ==> r->0@ == power_mod(g@, x@, p@),
{
    if !p.is_positive() || !g.is_positive() {
        return None;
    }
    Some(g.pow_mod(x, p))
}

/// Draws a modulus, a generator and a secret of at most `bit_size` bits from
/// `rng`, in this order, and plays one round with that secret and one with a
/// secret drawn afresh. Gives nothing when the modulus or the generator drawn
/// is not positive, which the draw decides; with no bits to draw, both are
/// zero, and nothing is given.
pub fn demonstrate(rng: &mut StdRng, bit_size: usize) -> (r: Option<Demonstration>)
    ensures
        bit_size == 0 ==> r is None,
        r is Some ==> r->0.sound(bit_size as nat),
{
    let p = generate_random_neutrosophic(rng, bit_size);
    let g = generate_random_neutrosophic(rng, bit_size);
    let x_secret = generate_random_neutrosophic(rng, bit_size);
    proof {
        lemma2_to64();
    }
    match derive_public_value(&g, &p, &x_secret) {
        None => None,
        Some(b) => {
            let honest_accepted = neutrosophic_one_round_zkp_protocol(
                rng,
                bit_size,
                &g,
                &p,
                &b,
                &x_secret,
            );
            let x_fake = generate_random_neutrosophic(rng, bit_size);
            let impostor_accepted = neutrosophic_one_round_zkp_protocol(
                rng,
                bit_size,
                &g,
                &p,
                &b,
                &x_fake,
            );
            Some(Demonstration { g, p, b, x_secret, x_fake, honest_accepted, impostor_accepted })
        },
    }
}

} // verus!
