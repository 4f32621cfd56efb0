//! Sign-up: a new account under a name that is free.

use vstd::prelude::*;

use super::Database;
use crate::credentials::{bcrypt_verdict, hash};
use crate::model::{Token, TokenView, User, UserView};
use crate::token::{generate_token, issued};
use crate::users::{has_user, InsertOutcome};

verus! {

/// Why a sign-up failed.
#[derive(Clone, Copy, Debug, PartialEq, Eq, Structural)]
pub enum SignupError {
    /// The storage failed.
    Database,
    /// An account bears the name already.
    NameAlreadyTaken,
    /// The password could not be hashed.
    Internal,
}

impl SignupError {
    /// The error in words.
    pub fn message(&self) -> (text: &'static str)
        ensures
            text@ == match self {
                SignupError::Database => "Database error"@,
                SignupError::NameAlreadyTaken => "Name already taken"@,
                SignupError::Internal => "Internal error"@,
            },
    {
        match self {
            SignupError::Database => "Database error",
            SignupError::NameAlreadyTaken => "Name already taken",
            SignupError::Internal => "Internal error",
        }
    }
}

/// The record of a fresh account: no privilege, one token, no recipe.
pub open spec fn new_account(
    name: Seq<char>,
    password_hash: Seq<char>,
    token: TokenView,
) -> UserView {
    UserView {
        name,
        password: password_hash,
        admin: false,
        tokens: seq![token],
        recipes: Seq::empty(),
    }
}

/// `after` is `before` with one more record at its end: the fresh account of
/// `name`, whose stored hash is one that `password` passes, holding `token`.
pub open spec fn signed_up(
    before: Seq<UserView>,
    name: Seq<char>,
    password: Seq<char>,
    after: Seq<UserView>,
    token: TokenView,
) -> bool {
    &&& !has_user(before, name)
    &&& after.len() == before.len() + 1
    &&& after.drop_last() == before
    &&& after.last() == new_account(name, after.last().password, token)
    &&& bcrypt_verdict(password, after.last().password) == Some(true)
    &&& issued(token)
}

/// What a sign-up does to the records and answers. On success the account
/// is added and bears the token. On failure nothing changes: the storage
/// cannot be the reason, and `NameAlreadyTaken` is given for a taken name
/// only. A taken name never succeeds.
pub open spec fn signup_effect(
    before: Seq<UserView>,
    name: Seq<char>,
    password: Seq<char>,
    after: Seq<UserView>,
    answer: Result<Token, SignupError>,
) -> bool {
    match answer {
        Ok(token) => signed_up(before, name, password, after, token@),
        Err(error) => {
            &&& after == before
            &&& error != SignupError::Database
            &&& error == SignupError::NameAlreadyTaken ==> has_user(before, name)
        },
    }
}

/// What a sign-up answers once the insert of the account has ended.
pub open spec fn signup_answer(outcome: InsertOutcome, token: Token) -> Result<Token, SignupError> {
    match outcome {
        InsertOutcome::Inserted => Ok(token),
        InsertOutcome::DuplicateKey => Err(SignupError::NameAlreadyTaken),
        InsertOutcome::Failed => Err(SignupError::Database),
    }
}

impl User {
    /// The record of a fresh account.
    pub fn new(name: String, password_hash: String, token: Token) -> (user: User)
        ensures
            user@ == new_account(name@, password_hash@, token@),
    {
        let mut tokens: Vec<Token> = Vec::new();
        tokens.push(token);
        let user = User { name, password: password_hash, admin: false, tokens, recipes: Vec::new() };
        assert(user.tokens.deep_view() =~= seq![token@]);
        assert(user.recipes.deep_view() =~= Seq::empty());
        user
    }
}

/// Issues the first token of an account and hashes its password: the record
/// to insert, and the token to hand out once it is stored. Fails with
/// `Internal`, and only so, where the password cannot be hashed.
pub fn prepare(name: String, password: &str) -> (prepared: Result<(User, Token), SignupError>)
    ensures
        match prepared {
            Ok((user, token)) => {
                &&& user@ == new_account(name@, user@.password, token@)
                &&& bcrypt_verdict(password@, user@.password) == Some(true)
                &&& issued(token@)
            },
            Err(error) => error == SignupError::Internal,
        },
{
    let token = generate_token();
    match hash(password) {
        Ok(password_hash) => Ok((User::new(name, password_hash, token.clone()), token)),
        Err(_) => Err(SignupError::Internal),
    }
}

/// Decides what a sign-up answers once the insert of the account has ended:
/// the token where the account is stored, `NameAlreadyTaken` where the
/// uniqueness constraint refused it, `Database` on any other failure.
pub fn conclude(outcome: InsertOutcome, token: Token) -> (answer: Result<Token, SignupError>)
    ensures
        answer == signup_answer(outcome, token),
{
    match outcome {
        InsertOutcome::Inserted => Ok(token),
        InsertOutcome::DuplicateKey => Err(SignupError::NameAlreadyTaken),
        InsertOutcome::Failed => Err(SignupError::Database),
    }
}

impl Database {
    /// Stores the prepared account `user` and hands `token` out, unless the
    /// name is taken: then nothing changes.
    pub fn register(&mut self, user: User, token: Token) -> (answer: Result<Token, SignupError>)
        ensures
            has_user(old(self)@, user@.name) ==> answer == Err::<Token, SignupError>(
                SignupError::NameAlreadyTaken,
            ) && final(self)@ == old(self)@,
            !has_user(old(self)@, user@.name) ==> answer == Ok::<Token, SignupError>(token)
                && final(self)@ == old(self)@.push(user@),
    {
        let outcome = self.users.insert_one(user);
        conclude(outcome, token)
    }

    /// Signs `name` up with `password`. On success the account is the last
    /// record and the returned token is its only token. On failure nothing
    /// changes; a name that is taken never succeeds, and `NameAlreadyTaken`
    /// is returned for no other reason. Whether the password can be hashed
    /// is for the hashing algorithm to decide: [`Database::register`] says
    /// what happens once it has been.
    pub fn signup(&mut self, name: String, password: String) -> (answer: Result<Token, SignupError>)
        ensures
            signup_effect(old(self)@, name@, password@, final(self)@, answer),
    {
        match prepare(name, password.as_str()) {
            Ok((user, token)) => {
                let answer = self.register(user, token);
                proof {
                    if answer is Ok {
                        assert(final(self)@.drop_last() =~= old(self)@);
                    }
                }
                answer
            },
            Err(error) => Err(error),
        }
    }
}

} // verus!
