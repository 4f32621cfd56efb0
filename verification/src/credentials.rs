//! The credential store: salted one-way hashes of passwords.
//!
//! Hashing and checking are done by the `bcrypt` crate. What a check answers
//! is a function of the password and the hash alone; the contracts speak of
//! it through [`bcrypt_verdict`].

use vstd::prelude::*;

verus! {

/// What `bcrypt::verify` answers for a password and a stored hash:
/// `Some(true)` where the password is the hashed one, `Some(false)` where it
/// is not, `None` where the hash cannot be read or the algorithm fails.
pub uninterp spec fn bcrypt_verdict(password: Seq<char>, hash: Seq<char>) -> Option<bool>;

/// `bcrypt::BcryptError`, the error of both calls, carried through unread.
#[verifier::external_type_specification]
#[verifier::external_body]
pub struct ExBcryptError(bcrypt::BcryptError);

/// A failure inside the hashing algorithm; it carries no detail.
#[derive(Clone, Copy, Debug, PartialEq, Eq, Structural)]
pub struct InternalError;

/// `bcrypt::hash` at the crate's default cost, with a salt that the system's
/// random source supplies. Trusted: a hash that comes back is one that
/// `bcrypt::verify` accepts for the same password. Nothing is claimed of when
/// the call fails.
#[verifier::external_body]
fn bcrypt_hash(password: &str) -> (hashed: Result<String, bcrypt::BcryptError>)
    ensures
        hashed matches Ok(hash) ==> bcrypt_verdict(password@, hash@) == Some(true),
{
    bcrypt::hash(password, bcrypt::DEFAULT_COST)
}

/// `bcrypt::verify`. Trusted: the answer is [`bcrypt_verdict`] of the two
/// strings, an error standing for `None`.
#[verifier::external_body]
fn bcrypt_verify(password: &str, hash: &str) -> (checked: Result<bool, bcrypt::BcryptError>)
    ensures
        match checked {
            Ok(same) => bcrypt_verdict(password@, hash@) == Some(same),
            Err(_) => bcrypt_verdict(password@, hash@) is None,
        },
{
    bcrypt::verify(password, hash)
}

/// What [`verify`] returns for a verdict of the algorithm.
pub open spec fn checked(verdict: Option<bool>) -> Result<bool, InternalError> {
    match verdict {
        Some(same) => Ok(same),
        None => Err(InternalError),
    }
}

/// What [`hash`] returns for an outcome of the algorithm.
pub open spec fn concluded(outcome: Result<String, bcrypt::BcryptError>) -> Result<
    String,
    InternalError,
> {
    match outcome {
        Ok(stored) => Ok(stored),
        Err(_) => Err(InternalError),
    }
}

/// Decides what a hashing is worth: the hash where the algorithm gave one,
/// and an error without detail where it failed, whatever the reason.
pub fn conclude(outcome: Result<String, bcrypt::BcryptError>) -> (hashed: Result<
    String,
    InternalError,
>)
    ensures
        hashed == concluded(outcome),
{
    match outcome {
        Ok(stored) => Ok(stored),
        Err(_) => Err(InternalError),
    }
}

/// Hashes `password` for storage. A hash that is returned is accepted by
/// [`verify`] for the same password; the plaintext is not kept. Whether a
/// hash is returned is for the algorithm and its random source to decide:
/// [`conclude`] says what becomes of either outcome.
pub fn hash(password: &str) -> (hashed: Result<String, InternalError>)
    ensures
        hashed matches Ok(stored) ==> bcrypt_verdict(password@, stored@) == Some(true),
{
    conclude(bcrypt_hash(password))
}

/// Tells whether `password` is the one that `hash` was made from. A password
/// that does not match is `Ok(false)`, not an error.
pub fn verify(password: &str, hash: &str) -> (same: Result<bool, InternalError>)
    ensures
        same == checked(bcrypt_verdict(password@, hash@)),
{
    match bcrypt_verify(password, hash) {
        Ok(same) => Ok(same),
        Err(_) => Err(InternalError),
    }
}

} // verus!
