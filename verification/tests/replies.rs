use recipe_final_exercise::cookies::Credentials;
use recipe_final_exercise::database::recipes::NewRecipeError;
use recipe_final_exercise::database::signin::SigninError;
use recipe_final_exercise::database::signup::SignupError;
use recipe_final_exercise::feedback::{
    after_get_recipes, after_keeping, after_new_recipe, after_signin, after_signup,
    before_new_recipe, call_failed, CallError, LoginStep,
};
use recipe_final_exercise::model::Token;
use recipe_final_exercise::service::{
    new_recipe_reply, signin_reply, signup_reply, RecipeInfo, ServerError,
};

fn token() -> Token {
    Token {
        token: "abc".to_string(),
        expiration: 5,
    }
}

fn shown(step: LoginStep) -> Option<&'static str> {
    match step {
        LoginStep::Keep(_) => None,
        LoginStep::Show(message) => Some(message),
    }
}

#[test]
fn signin_replies_hide_the_cause_of_a_failure() {
    assert_eq!(signin_reply(Ok(token())), Ok(Some(token())));
    assert_eq!(signin_reply(Err(SigninError::WrongNameOrPassword)), Ok(None));
    assert_eq!(signin_reply(Err(SigninError::Database)), Err(ServerError));
    assert_eq!(signin_reply(Err(SigninError::Internal)), Err(ServerError));
}

#[test]
fn signup_replies_hide_the_cause_of_a_failure() {
    assert_eq!(signup_reply(Ok(token())), Ok(Some(token())));
    assert_eq!(signup_reply(Err(SignupError::NameAlreadyTaken)), Ok(None));
    assert_eq!(signup_reply(Err(SignupError::Database)), Err(ServerError));
    assert_eq!(signup_reply(Err(SignupError::Internal)), Err(ServerError));
}

#[test]
fn new_recipe_replies_tell_refusal_from_failure() {
    assert_eq!(new_recipe_reply(Ok(())), Ok(true));
    assert_eq!(
        new_recipe_reply(Err(NewRecipeError::InvalidCredentials)),
        Ok(false)
    );
    assert_eq!(
        new_recipe_reply(Err(NewRecipeError::Database)),
        Err(ServerError)
    );
}

#[test]
fn a_client_keeps_the_token_of_a_signin() {
    match after_signin(Ok(Some(token()))) {
        LoginStep::Keep(kept) => assert_eq!(kept, token()),
        LoginStep::Show(message) => panic!("unexpected message: {}", message),
    }
    assert_eq!(shown(after_signin(Ok(None))), Some("Wrong name or password"));
    assert_eq!(
        shown(after_signin(Err(CallError::Request))),
        Some("Network error")
    );
    assert_eq!(
        shown(after_signin(Err(CallError::Other))),
        Some("Internal error, retry later")
    );
}

#[test]
fn a_client_keeps_the_token_of_a_signup() {
    match after_signup(Ok(Some(token()))) {
        LoginStep::Keep(kept) => assert_eq!(kept, token()),
        LoginStep::Show(message) => panic!("unexpected message: {}", message),
    }
    assert_eq!(shown(after_signup(Ok(None))), Some("Name already taken"));
    assert_eq!(
        shown(after_signup(Err(CallError::Request))),
        Some("Network error")
    );
    assert_eq!(
        shown(after_signup(Err(CallError::Other))),
        Some("Internal error, retry later")
    );
}

#[test]
fn a_client_reports_credentials_that_it_could_not_keep() {
    assert_eq!(after_keeping(Ok(())), None);
    assert_eq!(after_keeping(Err(())), Some("Internal error, retry later"));
    assert_eq!(call_failed(CallError::Request), "Network error");
    assert_eq!(call_failed(CallError::Other), "Internal error, retry later");
}

#[test]
fn a_client_without_credentials_creates_no_recipe() {
    let held = before_new_recipe(Ok(Credentials {
        name: "alice".to_string(),
        token: "abc".to_string(),
    }))
    .unwrap();
    assert_eq!(held.name, "alice");
    assert_eq!(held.token, "abc");
    assert_eq!(
        before_new_recipe(Err(())).unwrap_err(),
        "You must be signed in to create a recipe"
    );
}

#[test]
fn a_client_reports_how_the_creation_went() {
    assert_eq!(after_new_recipe(Ok(true)), None);
    assert_eq!(
        after_new_recipe(Ok(false)),
        Some("Session expired, please sign in")
    );
    assert_eq!(
        after_new_recipe(Err(CallError::Request)),
        Some("Network error")
    );
    assert_eq!(
        after_new_recipe(Err(CallError::Other)),
        Some("Internal error, retry later")
    );
}

#[test]
fn a_client_shows_the_listing_or_one_message() {
    let listed = after_get_recipes(Ok(vec![RecipeInfo {
        name: "Soup".to_string(),
        icon_url: "/icons/soup.png".to_string(),
    }]))
    .unwrap();
    assert_eq!(listed.len(), 1);
    assert_eq!(listed[0].name, "Soup");
    assert_eq!(listed[0].icon_url, "/icons/soup.png");
    assert_eq!(
        after_get_recipes(Err(CallError::Request)).unwrap_err(),
        "Failed to query recipes"
    );
    assert_eq!(
        after_get_recipes(Err(CallError::Other)).unwrap_err(),
        "Failed to query recipes"
    );
}
