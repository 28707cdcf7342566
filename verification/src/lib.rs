//! Arithmetic on neutrosophic numbers `a + bI`, where `I` is an idempotent
//! symbol (`I * I = I`), and a one-round proof of knowledge built on it.
//!
//! The components of a number are arbitrary-precision integers. They are held
//! as a sign and little-endian base-2^32 digits, so that their value is an
//! ordinary specification function; the heavy arithmetic on them is done by
//! `num-bigint`.

pub mod algebra;
pub mod backend;
pub mod demonstration;
pub mod digits;
pub mod integer;
pub mod modular;
pub mod number;
pub mod protocol;
pub mod random;

pub use demonstration::{demonstrate, derive_public_value, Demonstration};
pub use integer::BigInteger;
pub use number::NeutrosophicNumber;
pub use protocol::{neutrosophic_one_round_zkp_protocol, one_round_with_challenge};
pub use random::generate_random_neutrosophic;
