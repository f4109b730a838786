//! The password hashing engine: turns a plaintext password into a
//! self-describing artifact (a PHC string carrying algorithm, parameters,
//! salt and digest) and verifies a plaintext against a stored artifact.
//!
//! The memory-hard digest itself is computed by the `argon2` crate; this
//! module names its outcomes and proves everything around the two calls.

use argon2::PasswordHasher;
use argon2::PasswordVerifier;
use vstd::prelude::*;

verus! {

/// Whether a string is a well-formed stored artifact, that is, whether
/// `argon2::password_hash::PasswordHash::new` parses it. Parsing is a
/// function of the string alone.
pub uninterp spec fn is_artifact(s: Seq<char>) -> bool;

/// Whether a password matches an artifact: the outcome of recomputing the
/// digest from the password with the artifact's own salt and parameters and
/// comparing it to the stored digest, as `argon2::Argon2::verify_password`
/// does. The outcome is a function of the password and the artifact alone.
pub uninterp spec fn verifies(password: Seq<char>, artifact: Seq<char>) -> bool;

/// How the hashing engine can fail.
#[derive(Clone, Copy, Debug, PartialEq, Eq, Structural)]
pub enum HashError {
    /// Internal fault while deriving a digest; never caused by the
    /// password's content.
    HashFailure,
    /// A stored artifact is not a well-formed PHC string: a
    /// storage-integrity fault, not a user error.
    ParseFailure,
}

/// Relies on `argon2::Argon2::hash_password` (through the `PasswordHasher`
/// trait) with a fresh random salt from `OsRng`: on success the returned
/// PHC string parses back with `PasswordHash::new`, and recomputing the
/// digest for the same password over that string succeeds. The salt is
/// random, so nothing relates the artifacts of two calls.
#[verifier::external_body]
fn argon2_hash(password: &str) -> (r: Option<String>)
    ensures
        r matches Some(h) ==> is_artifact(h@) && verifies(password@, h@),
{
    let salt = argon2::password_hash::SaltString::generate(
        &mut argon2::password_hash::rand_core::OsRng,
    );
    match argon2::Argon2::default().hash_password(password.as_bytes(), &salt) {
        Ok(h) => Some(h.to_string()),
        Err(_) => None,
    }
}

/// Relies on `argon2::password_hash::PasswordHash::new`, which parses an
/// artifact string deterministically, and on
/// `argon2::Argon2::verify_password`, which recomputes the digest from the
/// password and the parsed salt and parameters and compares it in constant
/// time: both outcomes are functions of the two arguments alone.
#[verifier::external_body]
fn argon2_check(password: &str, artifact: &str) -> (r: Option<bool>)
    ensures
        r is Some <==> is_artifact(artifact@),
        r matches Some(b) ==> b == verifies(password@, artifact@),
{
    match argon2::password_hash::PasswordHash::new(artifact) {
        Ok(parsed) => Some(
            argon2::Argon2::default().verify_password(password.as_bytes(), &parsed).is_ok(),
        ),
        Err(_) => None,
    }
}

/// Hash a password into a self-describing artifact with a fresh random
/// salt. Fails only on an internal fault of the engine, never because of
/// the password's content; on success the artifact is well formed and
/// matches the password it was derived from.
pub fn hash_password(password: &str) -> (r: Result<String, HashError>)
    ensures
        r matches Ok(h) ==> is_artifact(h@) && verifies(password@, h@),
        r matches Err(e) ==> e == HashError::HashFailure,
{
    match argon2_hash(password) {
        Some(h) => Ok(h),
        None => Err(HashError::HashFailure),
    }
}

/// What `verify_password` returns for a password and a stored artifact:
/// a malformed artifact is a `ParseFailure`, a well-formed one answers
/// exactly whether the password matches it.
pub open spec fn verify_result(password: Seq<char>, artifact: Seq<char>) -> Result<
    bool,
    HashError,
> {
    if is_artifact(artifact) {
        Ok(verifies(password, artifact))
    } else {
        Err(HashError::ParseFailure)
    }
}

/// Verify a password against a stored artifact. Returns `true` or `false`
/// on every well-formed artifact; fails only when the stored string is not
/// a well-formed artifact.
pub fn verify_password(password: &str, artifact: &str) -> (r: Result<bool, HashError>)
    ensures
        r == verify_result(password@, artifact@),
{
    match argon2_check(password, artifact) {
        Some(b) => Ok(b),
        None => Err(HashError::ParseFailure),
    }
}

/// A fresh artifact always verifies against the password it was derived
/// from: for every password `p`, an artifact with the properties that
/// `hash_password(p)` ensures of its output makes `verify_password(p, _)`
/// return exactly `Ok(true)`.
pub proof fn lemma_fresh_artifact_verifies(password: Seq<char>, artifact: Seq<char>)
    requires
        is_artifact(artifact),
        verifies(password, artifact),
    ensures
        verify_result(password, artifact) == Ok::<bool, HashError>(true),
{
}

} // verus!
