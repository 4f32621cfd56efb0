//! Sign-in: a new token for an account whose password is presented.

use vstd::prelude::*;

use super::Database;
use crate::credentials::{bcrypt_verdict, checked, verify, InternalError};
use crate::model::{Token, User, UserView};
use crate::token::{generate_token, issued};
use crate::users::{find, position, with_token, UpdateOutcome};

verus! {

/// Why a sign-in failed.
#[derive(Clone, Copy, Debug, PartialEq, Eq, Structural)]
pub enum SigninError {
    /// The storage failed.
    Database,
    /// No account bears the name, or the password is not the account's.
    WrongNameOrPassword,
    /// The password could not be checked.
    Internal,
}

impl SigninError {
    /// The error in words.
    pub fn message(&self) -> (text: &'static str)
        ensures
            text@ == match self {
                SigninError::Database => "Database error"@,
                SigninError::WrongNameOrPassword => "Wrong name or password"@,
                SigninError::Internal => "Internal error"@,
            },
    {
        match self {
            SigninError::Database => "Database error",
            SigninError::WrongNameOrPassword => "Wrong name or password",
            SigninError::Internal => "Internal error",
        }
    }
}

/// What the check of a password is worth to a sign-in.
pub open spec fn judged(check: Result<bool, InternalError>) -> Result<(), SigninError> {
    match check {
        Ok(true) => Ok(()),
        Ok(false) => Err(SigninError::WrongNameOrPassword),
        Err(_) => Err(SigninError::Internal),
    }
}

/// Whether `password` signs in to the account that was found under a name.
/// An unknown name and a wrong password give the same error.
pub open spec fn authentication(found: Option<UserView>, password: Seq<char>) -> Result<
    (),
    SigninError,
> {
    match found {
        None => Err(SigninError::WrongNameOrPassword),
        Some(user) => judged(checked(bcrypt_verdict(password, user.password))),
    }
}

/// What a sign-in does to the records and answers. Where the account exists
/// and the password passes, a token is issued, appended to the account's
/// tokens and returned. Otherwise the error is the one that the check gave,
/// and nothing changes.
pub open spec fn signin_effect(
    before: Seq<UserView>,
    name: Seq<char>,
    password: Seq<char>,
    after: Seq<UserView>,
    answer: Result<Token, SigninError>,
) -> bool {
    match answer {
        Ok(token) => {
            &&& authentication(find(before, name), password) is Ok
            &&& issued(token@)
            &&& after == with_token(before, position(before, name), token@)
        },
        Err(error) => {
            &&& authentication(find(before, name), password) == Err::<(), SigninError>(error)
            &&& after == before
        },
    }
}

/// What a sign-in answers once the append of the token has ended.
pub open spec fn signin_answer(outcome: UpdateOutcome, token: Token) -> Result<Token, SigninError> {
    match outcome {
        UpdateOutcome::Applied => Ok(token),
        UpdateOutcome::Failed => Err(SigninError::Database),
    }
}

/// Decides what the check of a password is worth to a sign-in: a match lets
/// it go on, a mismatch is `WrongNameOrPassword`, a failure of the check is
/// `Internal`.
pub fn judge(check: Result<bool, InternalError>) -> (verdict: Result<(), SigninError>)
    ensures
        verdict == judged(check),
{
    match check {
        Ok(true) => Ok(()),
        Ok(false) => Err(SigninError::WrongNameOrPassword),
        Err(_) => Err(SigninError::Internal),
    }
}

/// Decides whether `password` signs in to the account `found` under a name;
/// `None` stands for a name that no account bears.
pub fn authenticate(found: Option<&User>, password: &str) -> (verdict: Result<(), SigninError>)
    ensures
        verdict == authentication(
            match found {
                Some(user) => Some(user@),
                None => None,
            },
            password@,
        ),
{
    match found {
        None => Err(SigninError::WrongNameOrPassword),
        Some(user) => judge(verify(password, user.password.as_str())),
    }
}

/// Decides what a sign-in answers once the append of the new token has
/// ended: the token, or `Database` where the storage failed.
pub fn conclude(outcome: UpdateOutcome, token: Token) -> (answer: Result<Token, SigninError>)
    ensures
        answer == signin_answer(outcome, token),
{
    match outcome {
        UpdateOutcome::Applied => Ok(token),
        UpdateOutcome::Failed => Err(SigninError::Database),
    }
}

impl Database {
    /// Signs `name` in with `password`. Where the account exists and the
    /// password passes, a fresh token is appended to the account's tokens and
    /// returned. In every other case the error says why, and nothing changes.
    pub fn signin(&mut self, name: String, password: String) -> (answer: Result<Token, SigninError>)
        ensures
            signin_effect(old(self)@, name@, password@, final(self)@, answer),
    {
        match authenticate(self.users.find_one(name.as_str()), password.as_str()) {
            Ok(()) => {
                let token = generate_token();
                self.users.push_token(name.as_str(), token.clone());
                Ok(token)
            },
            Err(error) => Err(error),
        }
    }
}

} // verus!
