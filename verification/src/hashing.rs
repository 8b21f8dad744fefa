use vstd::prelude::*;

use crate::data_stores::UserStoreError;
use crate::password::Password;

verus! {

/// Whether a PHC-formatted hash string verifies against a password, exactly
/// as argon2's verifier decides it: the hash is re-derived from the password
/// with the parameters and salt the string carries, and compared in constant
/// time. The outcome is a pure function of the two strings.
pub uninterp spec fn phc_verifies(password: Seq<char>, hash: Seq<char>) -> bool;

/// Relies on argon2's `PasswordVerifier::verify_password` for `str`: the
/// outcome depends on the password bytes and the PHC hash string alone.
#[verifier::external_body]
fn verify_phc(password: &Password, hash: &str) -> (r: bool)
    ensures
        r == phc_verifies(password@, hash@),
{
    argon2::PasswordVerifier::<str>::verify_password(
        &argon2::Argon2::default(),
        password.as_str().as_bytes(),
        hash,
    ).is_ok()
}

/// Relies on argon2's `PasswordHasher::hash_password`: a memory-hard hash of
/// the password with a fresh random salt drawn inside the call, rendered in
/// PHC string form. The salt makes the result non-deterministic, so only
/// this is promised of every outcome: a hash it produces verifies against
/// the very password it was produced from.
#[verifier::external_body]
fn hash_phc(password: &Password) -> (r: Result<String, ()>)
    ensures
        match r {
            Ok(h) => phc_verifies(password@, h@),
            Err(()) => true,
        },
{
    match argon2::PasswordHasher::<argon2::PasswordHash>::hash_password(
        &argon2::Argon2::default(),
        password.as_str().as_bytes(),
    ) {
        Ok(h) => Ok(h.to_string()),
        Err(_) => Err(()),
    }
}

/// Hashes a password for persistence by a relational backend. A failure of
/// the hashing primitive is reported as `UnexpectedError`, never passed over
/// in silence; a produced hash always verifies against the password.
pub fn hash_credential(password: &Password) -> (r: Result<String, UserStoreError>)
    ensures
        match r {
            Ok(h) => phc_verifies(password@, h@),
            Err(e) => e == UserStoreError::UnexpectedError,
        },
{
    match hash_phc(password) {
        Ok(h) => Ok(h),
        Err(()) => Err(UserStoreError::UnexpectedError),
    }
}

/// Checks a password against a stored PHC hash: success exactly when the
/// hash verifies, and `InvalidCredentials` otherwise.
pub fn check_credential(password: &Password, hash: &str) -> (r: Result<(), UserStoreError>)
    ensures
        match r {
            Ok(()) => phc_verifies(password@, hash@),
            Err(e) => e == UserStoreError::InvalidCredentials && !phc_verifies(password@, hash@),
        },
{
    if verify_phc(password, hash) {
        Ok(())
    } else {
        Err(UserStoreError::InvalidCredentials)
    }
}

} // verus!
