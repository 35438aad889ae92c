//! Password hashing, a thin wrapper over the bcrypt primitive.
//!
//! Verification goes through the primitive's own verify routine;
//! comparison is never reimplemented by re-hashing and string
//! equality in application code.

use vstd::prelude::*;

use crate::error::AppError;

verus! {

/// What `bcrypt::verify` decides for a password and a digest: `Some`
/// of the comparison outcome, or `None` where the digest cannot be
/// parsed. The result depends on the two arguments alone.
pub uninterp spec fn bcrypt_verdict(password: Seq<char>, digest: Seq<char>) -> Option<bool>;

/// Relies on `bcrypt::hash` with the default cost: a digest produced
/// from the password and a fresh random salt. Any digest it returns is
/// accepted for the same password by `bcrypt::verify`.
#[verifier::external_body]
pub fn hash_password(password: &str) -> (r: Result<String, AppError>)
    ensures
        r matches Ok(h) ==> bcrypt_verdict(password@, h@) == Some(true),
        r matches Err(e) ==> e matches AppError::Bcrypt(_),
{
    match bcrypt::hash(password, bcrypt::DEFAULT_COST) {
        Ok(h) => Ok(h),
        Err(e) => Err(AppError::Bcrypt(format!("{}", e))),
    }
}

/// Relies on `bcrypt::verify`: the outcome is a function of the
/// password and the digest alone; a digest that does not parse is an
/// error, never a silent mismatch.
#[verifier::external_body]
pub fn verify_password(password: &str, hash: &str) -> (r: Result<bool, AppError>)
    ensures
        r matches Ok(b) ==> bcrypt_verdict(password@, hash@) == Some(b),
        r matches Err(e) ==> bcrypt_verdict(password@, hash@) is None && (
        e matches AppError::Bcrypt(_)),
{
    match bcrypt::verify(password, hash) {
        Ok(b) => Ok(b),
        Err(e) => Err(AppError::Bcrypt(format!("{}", e))),
    }
}

} // verus!
