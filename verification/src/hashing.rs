//! Password hashing and verification on top of the `bcrypt` crate.
//!
//! A bcrypt hash string encodes the algorithm version, the cost factor, a
//! random salt and the digest; verification re-derives the digest from the
//! password and the salt embedded in the stored hash. Because the salt is
//! drawn fresh on every call, two hashes of the same password differ, so the
//! outcome of verification is named by the uninterpreted function
//! [`bcrypt_check`], a deterministic function of the password bytes and the
//! hash string alone; whether a stored hash is well formed — the only way
//! verification can fail — is named by [`bcrypt_wellformed`], a function of
//! the hash string alone.

use vstd::prelude::*;
use vstd::string::StrSliceExecFns;
use vstd::string::StringExecFns;
use vstd::string::StringSliceAdditionalSpecFns;

use crate::error::AppError;

verus! {

/// The outcome `bcrypt::verify` decides for a password (as bytes) against a
/// stored hash string: `None` when the hash string is not a well-formed
/// bcrypt hash, otherwise `Some` of whether the password matches.
pub uninterp spec fn bcrypt_check(password: Seq<u8>, hash: Seq<char>) -> Option<bool>;

/// Whether `hash` is a well-formed bcrypt hash string, as decided by
/// bcrypt's hash parser: whether verification against it returns an outcome
/// rather than an error. A property of the hash string alone — the password
/// never enters the decision — so every string a hashing call produced can
/// be verified against any password without error.
pub uninterp spec fn bcrypt_wellformed(hash: Seq<char>) -> bool;

/// The default bcrypt cost factor, matching the default of the `bcrypt`
/// crate. Deployments that need a different work factor can call
/// [`hash_password_with_cost`] directly.
pub const DEFAULT_COST: u32 = 12;

/// The smallest cost factor bcrypt accepts.
pub const MIN_COST: u32 = 4;

/// The largest cost factor bcrypt accepts.
pub const MAX_COST: u32 = 31;

/// Relies on `bcrypt::hash`: under a cost in `4..=31` it derives the bcrypt
/// digest of the password under a fresh random salt and returns it as a
/// 60-character hash string, which `bcrypt::verify` accepts and matches
/// against the same password; a cost outside `4..=31` is rejected. The error
/// is returned as its rendered message.
#[verifier::external_body]
fn bcrypt_hash(password: &str, cost: u32) -> (r: Result<String, String>)
    ensures
        r matches Ok(h) ==> bcrypt_check(password.spec_bytes(), h@) == Some(true),
        r matches Ok(h) ==> bcrypt_wellformed(h@),
        r matches Ok(h) ==> h@.len() == 60,
        !(MIN_COST <= cost && cost <= MAX_COST) ==> r is Err,
{
    match bcrypt::hash(password, cost) {
        Ok(h) => Ok(h),
        Err(e) => Err(format!("{}", e)),
    }
}

/// Relies on `bcrypt::verify`: parses the stored hash string and compares the
/// bcrypt digest of the password against the digest embedded in it. The
/// outcome depends only on the password bytes and the hash string, and it is
/// an error exactly when the hash string is malformed — a condition of the
/// hash string alone, which the parser decides before the password is ever
/// read. The error is returned as its rendered message.
#[verifier::external_body]
fn bcrypt_verify(password: &str, hash: &str) -> (r: Result<bool, String>)
    ensures
        r matches Ok(b) ==> bcrypt_check(password.spec_bytes(), hash@) == Some(b),
        r is Err <==> bcrypt_check(password.spec_bytes(), hash@) is None,
        r is Err <==> !bcrypt_wellformed(hash@),
{
    match bcrypt::verify(password, hash) {
        Ok(b) => Ok(b),
        Err(e) => Err(format!("{}", e)),
    }
}

/// Hashes `password` with bcrypt under the given cost factor.
///
/// On success the returned 60-character hash string is well formed — so
/// verifying any password against it yields an outcome, never an error — and
/// verifies `true` against the same password. A cost outside bcrypt's
/// `4..=31` range, or a failure of the hashing engine (such as the system
/// randomness source), yields an [`AppError::InternalServerError`] whose
/// message starts with `"Hashing error: "`.
///
/// Note that bcrypt reads at most the first 72 bytes of the password:
/// passwords sharing those bytes verify against the same hash.
pub fn hash_password_with_cost(password: &str, cost: u32) -> (r: Result<String, AppError>)
    ensures
        r matches Ok(h) ==> bcrypt_check(password.spec_bytes(), h@) == Some(true),
        r matches Ok(h) ==> bcrypt_wellformed(h@),
        r matches Ok(h) ==> h@.len() == 60,
        !(MIN_COST <= cost && cost <= MAX_COST) ==> r is Err,
        r matches Err(e) ==> (e matches AppError::InternalServerError(m) && (exists|t: Seq<
            char,
        >| m@ == "Hashing error: "@ + t)),
{
    match bcrypt_hash(password, cost) {
        Ok(h) => Ok(h),
        Err(m) => {
            let msg = String::from_str("Hashing error: ").concat(m.as_str());
            proof {
                assert(msg@ == "Hashing error: "@ + m@);
            }
            Err(AppError::InternalServerError(msg))
        },
    }
}

/// Hashes `password` with bcrypt under the default cost factor
/// [`DEFAULT_COST`]. A fresh random salt is drawn internally on every call,
/// so two calls on the same password yield different hash strings, each of
/// which verifies against the password. The distinctness rests on the salt
/// randomness and is not related across calls by any contract here; it is
/// exercised by tests.
pub fn hash_password(password: &str) -> (r: Result<String, AppError>)
    ensures
        r matches Ok(h) ==> bcrypt_check(password.spec_bytes(), h@) == Some(true),
        r matches Ok(h) ==> bcrypt_wellformed(h@),
        r matches Ok(h) ==> h@.len() == 60,
        r matches Err(e) ==> (e matches AppError::InternalServerError(m) && (exists|t: Seq<
            char,
        >| m@ == "Hashing error: "@ + t)),
{
    hash_password_with_cost(password, DEFAULT_COST)
}

/// Verifies `password` against a stored bcrypt hash string.
///
/// Returns `Ok(true)` or `Ok(false)` exactly as bcrypt decides the match —
/// `Ok(false)` is a legitimate mismatch, not a fault. Returns an
/// [`AppError::InternalServerError`] whose message starts with
/// `"Verification error: "` exactly when `hash` is not a well-formed bcrypt
/// hash string — a condition of the hash alone — so a corrupt stored hash is
/// distinguished from a wrong password, and a hash that
/// [`hash_password`] produced verifies against any password without error.
pub fn verify_password(password: &str, hash: &str) -> (r: Result<bool, AppError>)
    ensures
        r matches Ok(b) ==> bcrypt_check(password.spec_bytes(), hash@) == Some(b),
        r is Err <==> bcrypt_check(password.spec_bytes(), hash@) is None,
        r is Err <==> !bcrypt_wellformed(hash@),
        r matches Err(e) ==> (e matches AppError::InternalServerError(m) && (exists|t: Seq<
            char,
        >| m@ == "Verification error: "@ + t)),
{
    match bcrypt_verify(password, hash) {
        Ok(b) => Ok(b),
        Err(m) => {
            let msg = String::from_str("Verification error: ").concat(m.as_str());
            proof {
                assert(msg@ == "Verification error: "@ + m@);
            }
            Err(AppError::InternalServerError(msg))
        },
    }
}

} // verus!
