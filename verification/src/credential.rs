//! Passwords: hashing them for storage and checking them against a stored
//! digest.

use vstd::prelude::*;

verus! {

#[verifier::external_type_specification]
#[verifier::external_body]
pub struct ExBcryptError(bcrypt::BcryptError);

/// What `bcrypt::verify` makes of a plaintext and a stored digest: `Some(true)`
/// where the digest is one of the plaintext, `Some(false)` where it is a digest
/// of something else, `None` where the digest cannot be read as one.
pub uninterp spec fn bcrypt_verdict(plaintext: Seq<char>, digest: Seq<char>) -> Option<bool>;

/// `bcrypt::verify`.
///
/// Trusted: the answer depends on the plaintext and the digest alone, so it is
/// given the name `bcrypt_verdict`; nothing more is claimed of it.
#[verifier::external_body]
fn bcrypt_verify(plaintext: &str, digest: &str) -> (res: Result<bool, bcrypt::BcryptError>)
    ensures
        match res {
            Ok(matches) => bcrypt_verdict(plaintext@, digest@) == Some(matches),
            Err(_) => bcrypt_verdict(plaintext@, digest@) is None,
        },
{
    bcrypt::verify(plaintext, digest)
}

/// `bcrypt::hash` at `bcrypt::DEFAULT_COST`.
///
/// Trusted: a digest that the call gives is one of the plaintext. That is,
/// `bcrypt::verify` finds that they match: it takes the salt and the cost out
/// of the digest, hashes the plaintext again with them, and compares. Nothing
/// more is claimed of the digest, which holds a random salt.
#[verifier::external_body]
fn bcrypt_hash(plaintext: &str) -> (res: Result<String, bcrypt::BcryptError>)
    ensures
        res matches Ok(digest) ==> bcrypt_verdict(plaintext@, digest@) == Some(true),
{
    bcrypt::hash(plaintext, bcrypt::DEFAULT_COST)
}

/// Checks a plaintext against a stored digest. `None` where the digest cannot
/// be read.
pub fn verify_password(plaintext: &str, digest: &str) -> (res: Option<bool>)
    ensures
        res == bcrypt_verdict(plaintext@, digest@),
{
    match bcrypt_verify(plaintext, digest) {
        Ok(matches) => Some(matches),
        Err(_) => None,
    }
}

/// A salted digest of the plaintext, at a fixed cost: one that
/// `verify_password` finds to match the plaintext. `None` where the primitive
/// fails. Two calls on one plaintext give different digests.
pub fn hash_password(plaintext: &str) -> (res: Option<String>)
    ensures
        res matches Some(digest) ==> bcrypt_verdict(plaintext@, digest@) == Some(true),
{
    match bcrypt_hash(plaintext) {
        Ok(digest) => Some(digest),
        Err(_) => None,
    }
}

} // verus!
