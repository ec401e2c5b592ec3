//! Password hashing, done by the `pwhash` crate behind trusted wrappers.
//!
//! A stored account never carries a plain password, only a salted bcrypt
//! hash. Whether a password matches a hash is a deterministic function of
//! the two strings, named [`bcrypt_verified`]; a fresh hash is salted at
//! random, so nothing is promised of its shape beyond the fact that the
//! hashed password verifies against it.

use vstd::prelude::*;

use crate::error::{BabibappError, ErrorKind};

verus! {

/// Whether `pwhash::bcrypt::verify` accepts this password against this
/// hash. Named, not written out: the check recomputes bcrypt under the
/// salt, cost and variant parsed back out of the hash string, and is a
/// function of the two strings alone.
pub uninterp spec fn bcrypt_verified(password: Seq<char>, hash: Seq<char>) -> bool;

/// Relies on `pwhash::bcrypt::verify`: deterministic in the password and
/// the hash.
#[verifier::external_body]
pub(crate) fn verify_password(password: &String, hash: &String) -> (r: bool)
    ensures
        r == bcrypt_verified(password@, hash@),
{
    pwhash::bcrypt::verify(password.as_str(), hash.as_str())
}

/// Relies on `pwhash::bcrypt::hash`: a fresh hash under a random salt, so
/// no two calls need agree; whatever salt was drawn, the hashed password
/// verifies against the result, because verification re-derives the salt
/// and cost from the hash string itself. The call always returns a hash:
/// hashing itself is infallible, and the salt comes from the process RNG,
/// which aborts rather than fails.
#[verifier::external_body]
pub(crate) fn hash_password(password: &String) -> (r: Result<String, BabibappError>)
    ensures
        r is Ok,
        bcrypt_verified(password@, (r->Ok_0)@),
{
    match pwhash::bcrypt::hash(password.as_str()) {
        Ok(h) => Ok(h),
        Err(_) => Err(BabibappError::with_msg(ErrorKind::Internal, "password hashing failed")),
    }
}

} // verus!
