//! Helpers of the routes: the reply to a payload that breaks field rules, and
//! password hashing.

use crate::errors::{Details, Error};
use crate::validation::ValidationErrors;
use vstd::prelude::*;

verus! {

/// The reply to a payload that breaks field rules: a 400 that lists them.
pub fn validation_errors_response(validation_errors: ValidationErrors) -> (r: Error)
    ensures
        r.is_invalid(validation_errors@),
{
    Error::BadRequest(Details::Invalid(validation_errors))
}

/// What Argon2 with its default parameters says of a password and a stored
/// hash: whether the hash is one of this password, or `None` where the text
/// is no password hash at all.
pub uninterp spec fn password_check(password: Seq<u8>, hash: Seq<char>) -> Option<bool>;

/// `Argon2::default().hash_password` under a salt from
/// `SaltString::generate(&mut OsRng)`, written out as text. The salt is
/// random, so the text differs from call to call; what holds of every
/// outcome is that the text verifies against the password it was made from.
#[verifier::external_body]
fn argon2_hash(password: &[u8]) -> (r: Option<String>)
    ensures
        r matches Some(hash) ==> password_check(password@, hash@) == Some(true),
{
    let salt = argon2::password_hash::SaltString::generate(
        &mut argon2::password_hash::rand_core::OsRng,
    );
    match argon2::PasswordHasher::hash_password(&argon2::Argon2::default(), password, &salt) {
        Ok(hash) => Some(hash.to_string()),
        Err(_) => None,
    }
}

/// `PasswordHash::new` on the stored text, then
/// `Argon2::default().verify_password`.
#[verifier::external_body]
fn argon2_verify(password: &[u8], hash: &str) -> (r: Option<bool>)
    ensures
        r == password_check(password@, hash@),
{
    match argon2::PasswordHash::new(hash) {
        Ok(parsed) => Some(
            argon2::PasswordVerifier::verify_password(
                &argon2::Argon2::default(),
                password,
                &parsed,
            ).is_ok(),
        ),
        Err(_) => None,
    }
}

/// Hashes a password under a fresh random salt. The hash verifies against
/// the password; a failure of the hasher is an internal error.
pub fn hash_password(password: &[u8]) -> (r: Result<String, Error>)
    ensures
        r matches Ok(hash) ==> password_check(password@, hash@) == Some(true),
        r matches Err(e) ==> e.is_internal(),
{
    match argon2_hash(password) {
        Some(hash) => Ok(hash),
        None => Err(Error::InternalServerError),
    }
}

/// Whether `hash` is a hash of `password`. A text that is no password hash
/// is the hash of no password.
pub fn verify_password(password: &[u8], hash: &str) -> (r: bool)
    ensures
        r == (password_check(password@, hash@) == Some(true)),
{
    match argon2_verify(password, hash) {
        Some(matches) => matches,
        None => false,
    }
}

} // verus!
