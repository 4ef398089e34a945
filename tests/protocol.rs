use sha2::Digest;
use toy_proof::protocol::{commitment_from_digest, Challenge, Commitment, Response};
use toy_proof::trials::{run_trial, run_trials};

const COMMITMENT_OF_59: u64 = 14382177517005262121;
const COMMITMENT_OF_0: u64 = 8794265229978523055;

#[test]
fn commit_twice_gives_same_commitment() {
    for v in [0u64, 1, 59, 1 << 40, u64::MAX] {
        assert_eq!(u64::commit(v), u64::commit(v));
    }
}

#[test]
fn commit_of_59_matches_golden_value() {
    assert_eq!(u64::commit(59), COMMITMENT_OF_59);
}

#[test]
fn commit_of_zero_matches_golden_value() {
    assert_eq!(u64::commit(0), COMMITMENT_OF_0);
}

#[test]
fn commit_agrees_with_sha256_prefix() {
    for v in [0u64, 59, 12345, u64::MAX] {
        let digest = sha2::Sha256::digest(v.to_le_bytes());
        let mut head = [0u8; 8];
        head.copy_from_slice(&digest[..8]);
        assert_eq!(u64::commit(v), u64::from_le_bytes(head));
    }
}

#[test]
fn commit_differs_from_its_value() {
    assert_ne!(u64::commit(59), 59);
}

#[test]
fn commitment_from_digest_reads_first_eight_bytes_little_endian() {
    let digest: Vec<u8> = (1u8..=32).collect();
    assert_eq!(commitment_from_digest(&digest), 0x0807060504030201);
    let exact = [0xffu8, 0, 0, 0, 0, 0, 0, 0x80];
    assert_eq!(commitment_from_digest(&exact), 0x80000000000000ff);
}

#[test]
fn respond_is_inverted_parity() {
    assert_eq!(u64::respond(59, &0), 0);
    assert_eq!(u64::respond(58, &0), 1);
    assert_eq!(u64::respond(0, &7), 1);
    assert_eq!(u64::respond(u64::MAX, &7), 0);
    for v in 0u64..64 {
        let r = u64::respond(v, &v);
        assert!(r == 0 || r == 1);
        assert_eq!(r == 1, v % 2 == 0);
    }
}

#[test]
fn respond_ignores_challenge() {
    for ch in [0u64, 1, 2, u64::MAX] {
        assert_eq!(u64::respond(59, &ch), 0);
        assert_eq!(u64::respond(60, &ch), 1);
    }
}

#[test]
fn verify_accepts_response_from_commitment() {
    for c in [0u64, 1, COMMITMENT_OF_59, u64::MAX] {
        for ch in [0u64, 3, u64::MAX] {
            let r = u64::respond(c, &ch);
            assert!(u64::verify(&c, &ch, &r));
        }
    }
}

#[test]
fn verify_rejects_other_responses() {
    assert!(!u64::verify(&4, &0, &0));
    assert!(!u64::verify(&5, &0, &1));
    assert!(!u64::verify(&5, &0, &2));
}

#[test]
fn open_reveals_commitment() {
    for c in [0u64, 59, COMMITMENT_OF_59, u64::MAX] {
        assert_eq!(c.open(), Some(c));
    }
}

#[test]
fn challenges_vary() {
    let c = u64::commit(59);
    let draws: Vec<u64> = (0..4).map(|_| u64::challenge(&c)).collect();
    assert!(draws.iter().any(|d| *d != draws[0]));
}

#[test]
fn single_trial_on_59_is_accepted() {
    assert!(run_trial(59));
}

#[test]
fn single_trial_on_zero_is_rejected() {
    assert!(!run_trial(0));
}

#[test]
fn ten_trials_on_59_all_succeed() {
    let successes = run_trials(59, 10);
    assert_eq!(successes, 10);
    let probability = successes as f64 / 10.0;
    assert_eq!(format!("{:.2}", probability), "1.00");
}

#[test]
fn trials_on_zero_never_succeed() {
    let successes = run_trials(0, 10);
    assert_eq!(successes, 0);
    assert_eq!(format!("{:.2}", successes as f64 / 10.0), "0.00");
}

#[test]
fn trials_are_reproducible() {
    assert_eq!(run_trials(59, 25), run_trials(59, 25));
    assert_eq!(run_trials(0, 25), run_trials(0, 25));
}

#[test]
fn no_trials_no_successes() {
    assert_eq!(run_trials(59, 0), 0);
}
