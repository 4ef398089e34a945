//! A toy challenge-response proof: a prover commits to a secret 64-bit value,
//! a verifier draws a challenge, the prover answers, and the verifier checks
//! the answer against the commitment.

pub mod hashing;
pub mod protocol;
pub mod trials;
