//! The three roles of the protocol and their implementation on `u64`.
use crate::hashing::{sha256, sha256_of};
use vstd::bytes::{spec_u64_from_le_bytes, spec_u64_to_le_bytes, u64_from_le_bytes, u64_to_le_bytes};
use vstd::prelude::*;
use vstd::slice::slice_subrange;

verus! {

/// A value that can bind a prover to a secret.
pub trait Commitment: Sized {
    /// The commitment made to `value`.
    spec fn committed(value: Self) -> Self;

    /// What opening `self` reveals.
    spec fn opened(self) -> Option<Self>;

    /// Creates a commitment to `value`.
    fn commit(value: Self) -> (c: Self)
        ensures
            c == Self::committed(value),
    ;

    /// Opens the commitment and reveals the value behind it.
    fn open(self) -> (r: Option<Self>)
        ensures
            r == self.opened(),
    ;
}

/// A value a verifier poses after seeing a commitment.
pub trait Challenge: Sized {
    /// Draws a challenge for `commitment`.
    fn challenge(commitment: &Self) -> Self;
}

/// A prover's answer to a challenge.
pub trait Response: Sized {
    /// The answer owed for `value` under `challenge`.
    spec fn answer(value: Self, challenge: Self) -> Self;

    /// Whether `response` is accepted for `commitment` and `challenge`.
    spec fn accepts(commitment: Self, challenge: Self, response: Self) -> bool;

    /// Answers `challenge` for `value`.
    fn respond(value: Self, challenge: &Self) -> (r: Self)
        ensures
            r == Self::answer(value, *challenge),
    ;

    /// Checks `response` against `commitment` and `challenge`.
    fn verify(commitment: &Self, challenge: &Self, response: &Self) -> (ok: bool)
        ensures
            ok == Self::accepts(*commitment, *challenge, *response),
    ;
}

/// The number read from the first eight bytes of `digest`, little-endian.
pub open spec fn digest_prefix_value(digest: Seq<u8>) -> u64 {
    spec_u64_from_le_bytes(digest.subrange(0, 8))
}

/// The commitment to `value`: the first eight bytes of the SHA-256 digest of
/// its little-endian encoding, read back as a little-endian number.
pub open spec fn commitment_of(value: u64) -> u64 {
    digest_prefix_value(sha256_of(spec_u64_to_le_bytes(value)))
}

/// The answer for `value`: its lowest bit, inverted.
pub open spec fn response_of(value: u64) -> u64 {
    if value % 2 == 0 {
        1
    } else {
        0
    }
}

/// Reads the commitment out of a digest: its first eight bytes as a
/// little-endian number.
pub fn commitment_from_digest(digest: &[u8]) -> (c: u64)
    requires
        digest@.len() >= 8,
    ensures
        c == digest_prefix_value(digest@),
{
    u64_from_le_bytes(slice_subrange(digest, 0, 8))
}

/// Relies on `rand::thread_rng` and `rand::Rng::gen`: a number drawn from the
/// thread's generator. Nothing is known of which one.
#[verifier::external_body]
fn random_u64() -> (r: u64) {
    rand::Rng::gen::<u64>(&mut rand::thread_rng())
}

impl Commitment for u64 {
    open spec fn committed(value: u64) -> u64 {
        commitment_of(value)
    }

    open spec fn opened(self) -> Option<u64> {
        Some(self)
    }

    fn commit(value: u64) -> (c: u64) {
        let bytes = u64_to_le_bytes(value);
        let digest = sha256(bytes.as_slice());
        commitment_from_digest(digest.as_slice())
    }

    fn open(self) -> (r: Option<u64>) {
        Some(self)
    }
}

impl Challenge for u64 {
    fn challenge(commitment: &u64) -> u64 {
        random_u64()
    }
}

impl Response for u64 {
    open spec fn answer(value: u64, challenge: u64) -> u64 {
        response_of(value)
    }

    open spec fn accepts(commitment: u64, challenge: u64, response: u64) -> bool {
        response == response_of(commitment)
    }

    fn respond(value: u64, challenge: &u64) -> (r: u64) {
        let r = (value & 1) ^ 1;
        assert(r == response_of(value)) by (bit_vector)
            requires
                r == (value & 1) ^ 1,
        ;
        r
    }

    fn verify(commitment: &u64, challenge: &u64, response: &u64) -> (ok: bool) {
        let expected = u64::respond(*commitment, challenge);
        *response == expected
    }
}

/// Committing to the same value twice gives the same commitment.
pub proof fn commitment_is_deterministic(value: u64, first: u64, second: u64)
    requires
        first == <u64 as Commitment>::committed(value),
        second == <u64 as Commitment>::committed(value),
    ensures
        first == second,
        first == commitment_of(value),
{
}

/// The answer is 0 or 1: 1 exactly when the value is even, 0 exactly when it
/// is odd, whatever the challenge.
pub proof fn response_is_inverted_parity(value: u64, challenge: u64, other: u64)
    ensures
        <u64 as Response>::answer(value, challenge) == 0
            || <u64 as Response>::answer(value, challenge) == 1,
        <u64 as Response>::answer(value, challenge) == 1 <==> value % 2 == 0,
        <u64 as Response>::answer(value, challenge) == 0 <==> value % 2 == 1,
        <u64 as Response>::answer(value, challenge) == <u64 as Response>::answer(value, other),
{
}

/// The answer computed from a commitment and a challenge is always accepted
/// for that commitment and challenge.
pub proof fn verify_accepts_own_answer(commitment: u64, challenge: u64)
    ensures
        <u64 as Response>::accepts(
            commitment,
            challenge,
            <u64 as Response>::answer(commitment, challenge),
        ),
{
}

/// Opening a commitment always reveals a value, and that value is the
/// commitment itself.
pub proof fn opening_reveals_commitment(commitment: u64)
    ensures
        commitment.opened() is Some,
        commitment.opened() == Some(commitment),
{
}

} // verus!
