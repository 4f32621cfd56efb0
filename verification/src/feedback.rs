//! What a client does with a reply of the service, and what it tells its
//! user.

use vstd::prelude::*;

use crate::cookies::Credentials;
use crate::model::Token;
use crate::service::RecipeInfo;

verus! {

/// How a call of the service failed to bring a reply.
#[derive(Clone, Copy, Debug, PartialEq, Eq, Structural)]
pub enum CallError {
    /// The request did not reach the service.
    Request,
    /// The service failed, or its reply could not be read.
    Other,
}

/// What a client does after a sign-in or a sign-up.
#[derive(Debug)]
pub enum LoginStep {
    /// It keeps the name and this token as its credentials.
    Keep(Token),
    /// It shows this message.
    Show(&'static str),
}

/// What a client says of a call that brought no reply.
pub open spec fn call_message(error: CallError) -> Seq<char> {
    match error {
        CallError::Request => "Network error"@,
        CallError::Other => "Internal error, retry later"@,
    }
}

/// What a client does after a call for a token, where `refusal` is what it
/// says of a reply without a token.
pub open spec fn login_step(
    reply: Result<Option<Token>, CallError>,
    refusal: Seq<char>,
    step: LoginStep,
) -> bool {
    match reply {
        Ok(Some(token)) => step == LoginStep::Keep(token),
        Ok(None) => step matches LoginStep::Show(message) && message@ == refusal,
        Err(error) => step matches LoginStep::Show(message) && message@ == call_message(error),
    }
}

/// Says what a client tells its user of a call that brought no reply.
pub fn call_failed(error: CallError) -> (message: &'static str)
    ensures
        message@ == call_message(error),
{
    match error {
        CallError::Request => "Network error",
        CallError::Other => "Internal error, retry later",
    }
}

/// Decides what a client does after a sign-in.
pub fn after_signin(reply: Result<Option<Token>, CallError>) -> (step: LoginStep)
    ensures
        login_step(reply, "Wrong name or password"@, step),
{
    match reply {
        Ok(Some(token)) => LoginStep::Keep(token),
        Ok(None) => LoginStep::Show("Wrong name or password"),
        Err(error) => LoginStep::Show(call_failed(error)),
    }
}

/// Decides what a client does after a sign-up.
pub fn after_signup(reply: Result<Option<Token>, CallError>) -> (step: LoginStep)
    ensures
        login_step(reply, "Name already taken"@, step),
{
    match reply {
        Ok(Some(token)) => LoginStep::Keep(token),
        Ok(None) => LoginStep::Show("Name already taken"),
        Err(error) => LoginStep::Show(call_failed(error)),
    }
}

/// Says what a client tells its user once it has tried to keep its
/// credentials: nothing where they are kept.
pub fn after_keeping(kept: Result<(), ()>) -> (message: Option<&'static str>)
    ensures
        match kept {
            Ok(_) => message is None,
            Err(_) => message matches Some(text) && text@ == "Internal error, retry later"@,
        },
{
    match kept {
        Ok(_) => None,
        Err(_) => Some("Internal error, retry later"),
    }
}

/// Decides whether a client can ask for a recipe to be created: it can with
/// the credentials that it keeps, and tells its user where it keeps none.
pub fn before_new_recipe(kept: Result<Credentials, ()>) -> (credentials: Result<
    Credentials,
    &'static str,
>)
    ensures
        match kept {
            Ok(held) => credentials == Ok::<Credentials, &'static str>(held),
            Err(_) => credentials matches Err(text) && text@
                == "You must be signed in to create a recipe"@,
        },
{
    match kept {
        Ok(held) => Ok(held),
        Err(_) => Err("You must be signed in to create a recipe"),
    }
}

/// Says what a client tells its user after it asked for a recipe to be
/// created: nothing where it was.
pub fn after_new_recipe(reply: Result<bool, CallError>) -> (message: Option<&'static str>)
    ensures
        match reply {
            Ok(true) => message is None,
            Ok(false) => message matches Some(text) && text@ == "Session expired, please sign in"@,
            Err(error) => message matches Some(text) && text@ == call_message(error),
        },
{
    match reply {
        Ok(true) => None,
        Ok(false) => Some("Session expired, please sign in"),
        Err(error) => Some(call_failed(error)),
    }
}

/// Decides what a client shows of a listing: the recipes, or a message
/// where the call failed in any way.
pub fn after_get_recipes(reply: Result<Vec<RecipeInfo>, CallError>) -> (shown: Result<
    Vec<RecipeInfo>,
    &'static str,
>)
    ensures
        match reply {
            Ok(recipes) => shown == Ok::<Vec<RecipeInfo>, &'static str>(recipes),
            Err(_) => shown matches Err(text) && text@ == "Failed to query recipes"@,
        },
{
    match reply {
        Ok(recipes) => Ok(recipes),
        Err(_) => Err("Failed to query recipes"),
    }
}

} // verus!
