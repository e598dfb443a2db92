//! Password hashing and verification, backed by Argon2.
//!
//! A digest is a self-describing PHC string: it encodes the algorithm, its
//! parameters and the salt, so verification recomputes the digest from the
//! password with exactly those inputs. What verification answers for a given
//! digest and password is a function of the two strings alone; the crate
//! names that outcome `pwd_verify_outcome` and states everything else over it.

use vstd::prelude::*;

use argon2::{PasswordHasher, PasswordVerifier};

use crate::errors::AppError;

verus! {

/// What Argon2 verification answers for a digest and a password:
/// `Ok(true)` when the digest matches the password, `Ok(false)` when it is
/// well-formed but does not match, `Err` when it cannot be processed at all.
pub uninterp spec fn pwd_verify_outcome(digest: Seq<char>, password: Seq<char>) -> Result<
    bool,
    (),
>;

/// Relies on `argon2::PasswordVerifier::verify_password` (with the digest
/// parsed as a PHC string): it recomputes the digest with the parameters and
/// salt embedded in the string and compares in constant time, so its outcome
/// is a function of the digest and the password alone. A mismatch is
/// `Error::PasswordInvalid`; any other error means the digest could not be
/// processed.
#[verifier::external_body]
fn verify_digest(password: &str, digest: &str) -> (r: Result<bool, ()>)
    ensures
        r == pwd_verify_outcome(digest@, password@),
{
    match argon2::Argon2::default().verify_password(password.as_bytes(), digest) {
        Ok(()) => Ok(true),
        Err(argon2::password_hash::Error::PasswordInvalid) => Ok(false),
        Err(_) => Err(()),
    }
}

/// Relies on `argon2::PasswordHasher::hash_password`: it derives a fresh
/// random salt, so the digest itself cannot be named; but the PHC string it
/// returns records the very algorithm, parameters, salt and output of that
/// computation, so verifying it against the same password recomputes the
/// same output and succeeds.
#[verifier::external_body]
fn hash_password_raw(password: &str) -> (r: Result<String, ()>)
    ensures
        (r matches Ok(d) ==> pwd_verify_outcome(d@, password@) == Ok::<bool, ()>(true)),
{
    match argon2::Argon2::default().hash_password(password.as_bytes()) {
        Ok(h) => Ok(h.to_string()),
        Err(_) => Err(()),
    }
}

/// Computes a salted digest for `password`. Every digest this returns
/// verifies against the password it was computed from.
pub fn hash_password(password: &str) -> (r: Result<String, AppError>)
    ensures
        r matches Ok(d) ==> pwd_verify_outcome(d@, password@) == Ok::<bool, ()>(true),
        r matches Err(e) ==> e matches AppError::PasswordHashing,
{
    match hash_password_raw(password) {
        Ok(d) => Ok(d),
        Err(()) => Err(AppError::PasswordHashing),
    }
}

/// Verifies `password` against `digest`. A digest that cannot be processed
/// is an internal error, not a failed verification.
pub fn verify_password(password: &str, digest: &str) -> (r: Result<bool, AppError>)
    ensures
        r matches Ok(b) ==> pwd_verify_outcome(digest@, password@) == Ok::<bool, ()>(b),
        r matches Err(e) ==> e matches AppError::PasswordHashing && pwd_verify_outcome(
            digest@,
            password@,
        ) is Err,
{
    match verify_digest(password, digest) {
        Ok(b) => Ok(b),
        Err(()) => Err(AppError::PasswordHashing),
    }
}

} // verus!
