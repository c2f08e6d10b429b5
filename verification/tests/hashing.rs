//! Tests for password hashing and verification. A low (but valid) cost
//! factor keeps the deliberately expensive algorithm fast enough for tests;
//! one test exercises the default cost.

use auth_utils::AppError;
use auth_utils::DEFAULT_COST;
use auth_utils::hash_password;
use auth_utils::hash_password_with_cost;
use auth_utils::verify_password;

const TEST_COST: u32 = 4;

#[test]
fn hash_then_verify_succeeds() {
    let hash = hash_password_with_cost("Correct Horse1", TEST_COST).unwrap();
    assert_eq!(verify_password("Correct Horse1", &hash).unwrap(), true);
}

#[test]
fn verify_rejects_wrong_password() {
    let hash = hash_password_with_cost("Correct Horse1", TEST_COST).unwrap();
    assert_eq!(verify_password("Wrong Horse1", &hash).unwrap(), false);
    assert_eq!(verify_password("", &hash).unwrap(), false);
}

#[test]
fn default_cost_hash_verifies() {
    let hash = hash_password("Passw0rd!").unwrap();
    assert_eq!(hash.len(), 60);
    assert_eq!(verify_password("Passw0rd!", &hash).unwrap(), true);
    assert_eq!(verify_password("Passw0rd", &hash).unwrap(), false);
}

#[test]
fn salt_randomization_gives_distinct_hashes() {
    let first = hash_password_with_cost("Same Input9", TEST_COST).unwrap();
    let second = hash_password_with_cost("Same Input9", TEST_COST).unwrap();
    assert_ne!(first, second);
    assert_eq!(verify_password("Same Input9", &first).unwrap(), true);
    assert_eq!(verify_password("Same Input9", &second).unwrap(), true);
}

#[test]
fn produced_hash_verifiable_against_any_password() {
    // Well-formedness is a property of the hash alone: a produced hash
    // yields an outcome, never an error, whatever password is checked.
    let hash = hash_password_with_cost("Some Pass1", TEST_COST).unwrap();
    for q in ["", "x", "completely different", "Some Pass1"] {
        assert!(verify_password(q, &hash).is_ok());
    }
}

#[test]
fn empty_password_hashes_and_verifies() {
    let hash = hash_password_with_cost("", TEST_COST).unwrap();
    assert_eq!(verify_password("", &hash).unwrap(), true);
    assert_eq!(verify_password("x", &hash).unwrap(), false);
}

#[test]
fn hash_output_is_opaque_encoded_string() {
    let hash = hash_password_with_cost("Any Password7", TEST_COST).unwrap();
    assert_eq!(hash.len(), 60);
    assert!(hash.starts_with("$2"));
    assert_ne!(hash, "Any Password7");
}

#[test]
fn bad_cost_is_internal_error() {
    for cost in [0, 3, 32] {
        match hash_password_with_cost("Passw0rd!", cost) {
            Err(AppError::InternalServerError(m)) => {
                assert!(m.starts_with("Hashing error: "));
            }
            other => panic!("expected an internal error, got {:?}", other),
        }
    }
    assert!((4..=31).contains(&DEFAULT_COST));
}

#[test]
fn corrupt_hash_is_internal_error() {
    for bad in ["", "not-a-hash", "$2b$aa$short"] {
        match verify_password("Passw0rd!", bad) {
            Err(AppError::InternalServerError(m)) => {
                assert!(m.starts_with("Verification error: "));
            }
            other => panic!("expected an internal error, got {:?}", other),
        }
    }
}

#[test]
fn wrong_password_is_mismatch_not_error() {
    // A legitimate mismatch must stay distinguishable from a corrupt hash.
    let hash = hash_password_with_cost("Right Pass1", TEST_COST).unwrap();
    assert_eq!(verify_password("other", &hash).unwrap(), false);
    assert!(verify_password("other", "corrupt").is_err());
}
