use neutrosophic::{
    generate_random_neutrosophic, neutrosophic_one_round_zkp_protocol, one_round_with_challenge,
    BigInteger, NeutrosophicNumber,
};
use rand::rngs::StdRng;
use rand::SeedableRng;

fn number(a: i64, b: i64) -> NeutrosophicNumber {
    NeutrosophicNumber::new(BigInteger::from_i64(a), BigInteger::from_i64(b))
}

/// Whether `x` is a natural number of at most `bits` bits.
fn fits(x: &BigInteger, bits: usize) -> bool {
    let digits = x.digits();
    let whole: usize = bits / 32;
    let rest: usize = bits % 32;
    if x.is_negative() {
        false
    } else if digits.len() <= whole {
        true
    } else {
        digits.len() == whole + 1 && rest > 0 && digits[whole] >> rest == 0
    }
}

#[test]
fn random_parts_fit_the_bit_size() {
    let mut rng = StdRng::seed_from_u64(1);
    let sizes: [usize; 9] = [1, 2, 7, 31, 32, 33, 64, 100, 2048];
    for &bits in sizes.iter() {
        for _ in 0..50 {
            let n = generate_random_neutrosophic(&mut rng, bits);
            assert!(fits(&n.a, bits));
            assert!(fits(&n.b, bits));
        }
    }
}

#[test]
fn random_number_of_no_bits_is_zero() {
    let mut rng = StdRng::seed_from_u64(2);
    assert_eq!(generate_random_neutrosophic(&mut rng, 0), number(0, 0));
}

#[test]
fn random_parts_take_every_small_value() {
    let mut rng = StdRng::seed_from_u64(3);
    let mut seen_a = [false; 4];
    let mut seen_b = [false; 4];
    for _ in 0..400 {
        let n = generate_random_neutrosophic(&mut rng, 2);
        for v in 0..4 {
            if n.a == BigInteger::from_i64(v) {
                seen_a[v as usize] = true;
            }
            if n.b == BigInteger::from_i64(v) {
                seen_b[v as usize] = true;
            }
        }
    }
    assert_eq!(seen_a, [true; 4]);
    assert_eq!(seen_b, [true; 4]);
}

#[test]
fn successive_draws_differ() {
    let mut rng = StdRng::seed_from_u64(4);
    let first = generate_random_neutrosophic(&mut rng, 256);
    let second = generate_random_neutrosophic(&mut rng, 256);
    assert_ne!(first, second);
    assert_ne!(first.a, first.b);
}

#[test]
fn round_with_a_given_challenge() {
    // g = 2 + I, p = 5 + 2I, x = 3 + I, so b = 2^3 mod 5 + ((3^4 mod 7) - 3)I = 3 + I.
    let g = number(2, 1);
    let p = number(5, 2);
    let x = number(3, 1);
    let b = g.pow_mod(&x, &p);
    assert_eq!(b, number(3, 1));
    // y = 2 + 3I: c = 2^2 mod 5 + ((3^5 mod 7) - 4)I = 4 + I.
    let y = number(2, 3);
    assert_eq!(g.pow_mod(&y, &p), number(4, 1));
    // Prover: 4^3 mod 5 + ((5^4 mod 7) - 4)I = 4 - 2I.
    // Verifier: 3^2 mod 5 + ((4^5 mod 7) - 4)I = 4 - 2I.
    assert_eq!(number(4, 1).pow_mod(&x, &p), number(4, -2));
    assert_eq!(b.pow_mod(&y, &p), number(4, -2));
    assert!(one_round_with_challenge(&g, &p, &b, &x, &y));
    // A wrong secret, 2 + I: 4^2 mod 5 + ((5^3 mod 7) - 1)I = 1 + 5I.
    let wrong = number(2, 1);
    assert_eq!(number(4, 1).pow_mod(&wrong, &p), number(1, 5));
    assert!(!one_round_with_challenge(&g, &p, &b, &wrong, &y));
}

#[test]
fn round_rejects_a_value_that_differs_in_one_part_only() {
    let g = number(2, 1);
    let p = number(5, 2);
    let x = number(3, 1);
    let y = number(2, 3);
    // The true public value is 3 + I, for which both sides come to 4 - 2I.
    assert!(one_round_with_challenge(&g, &p, &number(3, 1), &x, &y));
    // Same real part, other sum: the verifier gets 4 + ((5^5 mod 7) - 4)I = 4 - I.
    assert!(!one_round_with_challenge(&g, &p, &number(3, 2), &x, &y));
    // Same sum, other real part: the verifier gets 4^2 mod 5 + (2 - 1)I = 1 + I.
    assert!(!one_round_with_challenge(&g, &p, &number(4, 0), &x, &y));
}

#[test]
fn another_secret_with_the_same_answer_is_accepted() {
    // With g = 1 every power is 1, so every secret answers alike.
    let g = number(1, 0);
    let p = number(7, 4);
    let x = number(3, 1);
    let b = g.pow_mod(&x, &p);
    let y = number(5, 2);
    assert!(one_round_with_challenge(&g, &p, &b, &x, &y));
    assert!(one_round_with_challenge(&g, &p, &b, &number(4, 9), &y));
    // With g = 2 + I and y = 2 + 3I the challenge is 4 + I. Its real part has
    // order 2 modulo 5 and the sum of its parts order 6 modulo 7, so the
    // secret 9 + I answers as 3 + I does, and 9 + 2I does not.
    let g = number(2, 1);
    let p = number(5, 2);
    let b = g.pow_mod(&x, &p);
    let y = number(2, 3);
    assert!(one_round_with_challenge(&g, &p, &b, &number(9, 1), &y));
    assert!(!one_round_with_challenge(&g, &p, &b, &number(9, 2), &y));
}

#[test]
fn honest_prover_is_always_accepted() {
    let mut rng = StdRng::seed_from_u64(5);
    let bits: usize = 128;
    let mut rounds: u32 = 0;
    while rounds < 100 {
        let p = generate_random_neutrosophic(&mut rng, bits);
        let g = generate_random_neutrosophic(&mut rng, bits);
        let x = generate_random_neutrosophic(&mut rng, bits);
        if !p.is_positive() || !g.is_positive() {
            continue;
        }
        let b = g.pow_mod(&x, &p);
        assert!(neutrosophic_one_round_zkp_protocol(&mut rng, bits, &g, &p, &b, &x));
        rounds += 1;
    }
}

#[test]
fn honest_prover_is_accepted_at_full_size() {
    let mut rng = StdRng::seed_from_u64(6);
    let bits: usize = 2048;
    let p = generate_random_neutrosophic(&mut rng, bits);
    let g = generate_random_neutrosophic(&mut rng, bits);
    let x = generate_random_neutrosophic(&mut rng, bits);
    assert!(p.is_positive() && g.is_positive());
    let b = g.pow_mod(&x, &p);
    assert!(neutrosophic_one_round_zkp_protocol(&mut rng, bits, &g, &p, &b, &x));
}

#[test]
fn honest_prover_is_accepted_with_parameters_that_are_not_positive() {
    // The round only needs exponents that are not negative and moduli that are not zero.
    let g = number(-7, 3);
    let p = number(-11, 5);
    let x = number(6, -2);
    let b = g.pow_mod(&x, &p);
    let mut rng = StdRng::seed_from_u64(7);
    for _ in 0..50 {
        assert!(neutrosophic_one_round_zkp_protocol(&mut rng, 16, &g, &p, &b, &x));
    }
}

#[test]
fn fresh_secret_is_rejected() {
    let mut rng = StdRng::seed_from_u64(8);
    let bits: usize = 128;
    let mut rounds: u32 = 0;
    let mut rejected: u32 = 0;
    while rounds < 100 {
        let p = generate_random_neutrosophic(&mut rng, bits);
        let g = generate_random_neutrosophic(&mut rng, bits);
        let x = generate_random_neutrosophic(&mut rng, bits);
        if !p.is_positive() || !g.is_positive() {
            continue;
        }
        let b = g.pow_mod(&x, &p);
        let fake = generate_random_neutrosophic(&mut rng, bits);
        if !neutrosophic_one_round_zkp_protocol(&mut rng, bits, &g, &p, &b, &fake) {
            rejected += 1;
        }
        rounds += 1;
    }
    assert!(rejected >= 95);
}

#[test]
fn same_seed_same_run() {
    let bits: usize = 96;
    let mut outcomes: Vec<(NeutrosophicNumber, NeutrosophicNumber, NeutrosophicNumber, bool, bool)> =
        Vec::new();
    for _ in 0..2 {
        let mut rng = StdRng::seed_from_u64(9);
        let p = generate_random_neutrosophic(&mut rng, bits);
        let g = generate_random_neutrosophic(&mut rng, bits);
        let x = generate_random_neutrosophic(&mut rng, bits);
        assert!(p.is_positive() && g.is_positive());
        let b = g.pow_mod(&x, &p);
        let honest = neutrosophic_one_round_zkp_protocol(&mut rng, bits, &g, &p, &b, &x);
        let fake = generate_random_neutrosophic(&mut rng, bits);
        let impostor = neutrosophic_one_round_zkp_protocol(&mut rng, bits, &g, &p, &b, &fake);
        outcomes.push((p, b, fake, honest, impostor));
    }
    assert_eq!(outcomes[0], outcomes[1]);
}

#[test]
fn round_draws_from_the_generator_it_is_given() {
    // The round takes the next number from the generator: with the same seed,
    // the verifier's secret is the number that a draw of one's own gives.
    let g = number(2, 1);
    let p = number(1_000_003, 4);
    let x = number(12345, 678);
    let b = number(5, 5);
    let mut first = StdRng::seed_from_u64(10);
    let mut second = StdRng::seed_from_u64(10);
    for _ in 0..20 {
        let accepted = neutrosophic_one_round_zkp_protocol(&mut first, 40, &g, &p, &b, &x);
        let y = generate_random_neutrosophic(&mut second, 40);
        assert_eq!(accepted, one_round_with_challenge(&g, &p, &b, &x, &y));
    }
}
