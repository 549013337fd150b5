//! Password hashing and verification on top of a salted, adaptive,
//! intentionally slow one-way hash.
//!
//! Whether a plaintext matches a stored hash is a deterministic function of
//! the two strings; `bcrypt_matches` names that function, and every contract
//! that speaks of credential checks speaks through it.

use vstd::prelude::*;

verus! {

/// Whether `bcrypt::verify(password, hashed)` returns `Ok(true)`: a
/// deterministic function of the two strings alone.
pub uninterp spec fn bcrypt_matches(password: Seq<char>, hashed: Seq<char>) -> bool;

/// Relies on bcrypt::verify: it re-derives the hash from the password and
/// the salt embedded in `hashed` and compares, a deterministic function of
/// its two arguments. Any internal failure (a malformed hash) is collapsed
/// to "not verified": verification fails closed.
#[verifier::external_body]
pub(crate) fn verify_password(password: &str, hashed: &str) -> (r: bool)
    ensures
        r == bcrypt_matches(password@, hashed@),
{
    bcrypt::verify(password, hashed).unwrap_or(false)
}

/// Relies on bcrypt::hash with the default cost: on success the result is a
/// 60-character hash string that bcrypt::verify accepts against the input
/// password. It fails only when the operating system's randomness source
/// does (the salt is drawn fresh), so nothing more is promised of failure.
#[verifier::external_body]
pub(crate) fn hash_password(password: &str) -> (r: Option<String>)
    ensures
        r matches Some(h) ==> bcrypt_matches(password@, h@) && h@.len() == 60,
{
    bcrypt::hash(password, bcrypt::DEFAULT_COST).ok()
}

} // verus!
