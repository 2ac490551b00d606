//! Password hashing and verification.
//!
//! Wraps a memory-hard hash: hashing salts each call from a secure random
//! source, so two hashes of one plaintext differ; what is promised is the
//! verification relation between a plaintext and a hash, named by
//! [`password_verifies`].
use vstd::prelude::*;
use argon2::password_hash::{rand_core::OsRng, PasswordHasher, SaltString};
use argon2::{PasswordHash, PasswordVerifier};
use crate::errors::AppError;

verus! {

/// Whether a plaintext verifies against a stored PHC hash string. The
/// relation is a function of the two strings alone; it is decided by the
/// hashing algorithm and never written out here.
pub uninterp spec fn password_verifies(password: Seq<char>, phc: Seq<char>) -> bool;

#[verifier::external_type_specification]
#[verifier::external_body]
pub struct ExPasswordHashError(argon2::password_hash::Error);

/// Relies on argon2::Argon2::hash_password with a fresh random salt: the
/// produced PHC string verifies against the hashed plaintext. The salt is
/// random, so nothing relates two calls on the same plaintext.
#[verifier::external_body]
pub fn hash_password(password: &str) -> (r: Result<String, argon2::password_hash::Error>)
    ensures
        r matches Ok(h) ==> password_verifies(password@, h@),
{
    let salt = SaltString::generate(&mut OsRng);
    argon2::Argon2::default().hash_password(password.as_bytes(), &salt).map(|h| h.to_string())
}

/// Relies on argon2::Argon2::verify_password, which decides the
/// [`password_verifies`] relation from the plaintext and the self-describing
/// hash alone; a malformed stored hash counts as a mismatch, never an error.
#[verifier::external_body]
pub fn verify_password(password: &str, phc: &str) -> (r: bool)
    ensures
        r == password_verifies(password@, phc@),
{
    match PasswordHash::new(phc) {
        Ok(parsed) => argon2::Argon2::default().verify_password(
            password.as_bytes(),
            &parsed,
        ).is_ok(),
        Err(_) => false,
    }
}

/// Law (password round trip): verifying a plaintext against a hash freshly
/// produced from that same plaintext always succeeds; hashing fails only on
/// catastrophic resource exhaustion, reported as a typed error.
pub fn password_round_trip(password: &str) -> (r: Result<bool, AppError>)
    ensures
        r matches Ok(b) ==> b,
        r matches Err(e) ==> e is PasswordHashError,
{
    match hash_password(password) {
        Ok(h) => Ok(verify_password(password, h.as_str())),
        Err(_) => Err(AppError::PasswordHashError),
    }
}

} // verus!
