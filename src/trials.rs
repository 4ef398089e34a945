//! Repeated runs of the protocol on one secret, tallying accepted proofs.
use crate::protocol::{commitment_of, Challenge, Commitment, Response};
use vstd::prelude::*;

verus! {

/// Whether a run on `value` is accepted: the verifier recomputes the answer
/// from the commitment, so it agrees with the prover's answer exactly when the
/// value and its commitment have the same parity.
pub open spec fn trial_succeeds(value: u64) -> bool {
    value % 2 == commitment_of(value) % 2
}

/// How many of `iterations` runs on `value` are accepted.
pub open spec fn successes_of(value: u64, iterations: u64) -> u64 {
    if trial_succeeds(value) {
        iterations
    } else {
        0
    }
}

/// One run: commit to `value`, draw a challenge, answer it with `value`, and
/// verify the answer against the commitment.
pub fn run_trial(value: u64) -> (accepted: bool)
    ensures
        accepted == trial_succeeds(value),
{
    let commitment = u64::commit(value);
    let challenge = u64::challenge(&commitment);
    let response = u64::respond(value, &challenge);
    u64::verify(&commitment, &challenge, &response)
}

/// Runs `iterations` trials on `value` and returns how many were accepted.
/// The challenges drawn play no part in the outcome, so either every trial is
/// accepted or none is.
pub fn run_trials(value: u64, iterations: u64) -> (successes: u64)
    ensures
        successes == successes_of(value, iterations),
{
    let mut successes: u64 = 0;
    let mut i: u64 = 0;
    while i < iterations
        invariant
            i <= iterations,
            successes == (if trial_succeeds(value) {
                i
            } else {
                0
            }),
        decreases iterations - i,
    {
        if run_trial(value) {
            successes = successes + 1;
        }
        i = i + 1;
    }
    successes
}

/// The tally of a series of runs is fixed by the secret alone: it is all of
/// them when the secret and its commitment share their lowest bit and none of
/// them otherwise, so repeating the series gives the same tally.
pub proof fn tally_depends_on_parity_alone(value: u64, iterations: u64, first: u64, second: u64)
    requires
        first == successes_of(value, iterations),
        second == successes_of(value, iterations),
    ensures
        first == second,
        first <= iterations,
        first == iterations <==> (iterations == 0 || value % 2 == commitment_of(value) % 2),
        first == 0 <==> (iterations == 0 || value % 2 != commitment_of(value) % 2),
{
}

} // verus!
