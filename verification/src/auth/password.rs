//! Password hashing with bcrypt.

use crate::errors::app::AppError;
use vstd::prelude::*;

verus! {

/// The work factor used for new hashes.
pub const DEFAULT_COST: u32 = 12;

/// The error type of the `bcrypt` crate.
#[verifier::external_type_specification]
#[verifier::external_body]
pub struct ExBcryptError(bcrypt::BcryptError);

/// What `bcrypt::verify` makes of a password and a stored hash: whether
/// the password is the hashed one, or nothing where the hash cannot be
/// read.
pub uninterp spec fn bcrypt_verifies(password: Seq<char>, hash: Seq<char>) -> Option<bool>;

/// `bcrypt::hash`: hashes the password with a fresh random salt.
///
/// Trusted: a hash that comes back verifies against the password it was
/// made from (the crate re-derives the hash from the salt that the text
/// carries). Which hash comes back is not said, nor that one does.
#[verifier::external_body]
fn bcrypt_hash(password: &str, cost: u32) -> (r: Result<String, bcrypt::BcryptError>)
    ensures
        r matches Ok(h) ==> bcrypt_verifies(password@, h@) == Some(true),
{
    bcrypt::hash(password, cost)
}

/// `bcrypt::verify`: checks a password against a stored hash.
///
/// Trusted: the outcome is what `bcrypt_verifies` names; an error
/// stands for a hash that cannot be read.
#[verifier::external_body]
fn bcrypt_verify(password: &str, hash: &str) -> (r: Result<bool, bcrypt::BcryptError>)
    ensures
        match r {
            Ok(same) => bcrypt_verifies(password@, hash@) == Some(same),
            Err(_) => bcrypt_verifies(password@, hash@) is None,
        },
{
    bcrypt::verify(password, hash)
}

/// The `Display` text of an error of the `bcrypt` crate.
///
/// Trusted: nothing is claimed of the text.
#[verifier::external_body]
fn bcrypt_error_text(e: &bcrypt::BcryptError) -> String {
    e.to_string()
}

/// Hashes a password for storage. A hash that is returned verifies
/// against the password; the only failure is one of the hashing itself.
pub fn hash_password(password: &str) -> (r: Result<String, AppError>)
    ensures
        r matches Ok(h) ==> bcrypt_verifies(password@, h@) == Some(true),
        r matches Err(e) ==> e is BCrypt,
{
    match bcrypt_hash(password, DEFAULT_COST) {
        Ok(h) => Ok(h),
        Err(e) => Err(AppError::BCrypt(bcrypt_error_text(&e))),
    }
}

/// Checks a password against a stored hash: `Ok(true)` where it is the
/// hashed one, `Ok(false)` where it is not, and an error where the hash
/// cannot be read.
pub fn verify_password(password: &str, hash: &str) -> (r: Result<bool, AppError>)
    ensures
        match r {
            Ok(same) => bcrypt_verifies(password@, hash@) == Some(same),
            Err(e) => e is BCrypt && bcrypt_verifies(password@, hash@) is None,
        },
{
    match bcrypt_verify(password, hash) {
        Ok(same) => Ok(same),
        Err(e) => Err(AppError::BCrypt(bcrypt_error_text(&e))),
    }
}

} // verus!
