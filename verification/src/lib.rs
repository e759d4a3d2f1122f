//! Chaum-Pedersen proofs of equal discrete logarithms over a prime-order
//! subgroup of the integers modulo `p`.
//!
//! A prover who knows `x` with `y1 = g^x mod p` and `y2 = h^x mod p` convinces
//! a verifier of that fact in three moves: a commitment `(r1, r2) = (g^k, h^k)`
//! for a fresh nonce `k`, a challenge `c`, and the response
//! `s = (k - c * x) mod q`. The verifier accepts when `g^s * y1^c = r1` and
//! `h^s * y2^c = r2` modulo `p`.
//!
//! The arithmetic is verified against the mathematical model in [`model`], and
//! [`laws`] proves completeness and uniqueness of the accepted response.

pub mod error;
pub mod model;
mod modular;
pub mod exponent;
pub mod response;
pub mod transcript;
pub mod laws;
pub mod random;
pub mod toy;

pub use error::ProtocolError;
pub use exponent::{derive_public_value, exponentiate, modular_exponentiate};
pub use response::{solve, solve_response};
pub use transcript::{verify, verify_proof};
pub use random::{random_number, random_string};
pub use toy::{G, H, P, Q};
