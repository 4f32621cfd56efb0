use recipe_final_exercise::credentials::{conclude, hash, verify, InternalError};
use recipe_final_exercise::database::signin::{authenticate, judge, SigninError};
use recipe_final_exercise::database::signup::{prepare, SignupError};
use recipe_final_exercise::database::{signin, signup, Database};
use recipe_final_exercise::model::{Token, User};
use recipe_final_exercise::token::authorize;
use recipe_final_exercise::users::{InsertOutcome, UpdateOutcome};

fn token(text: &str, expiration: i64) -> Token {
    Token {
        token: text.to_string(),
        expiration,
    }
}

#[test]
fn signup_then_signin_yields_two_tokens() {
    let mut database = Database::new();
    let first = database
        .signup("alice".to_string(), "pw123456".to_string())
        .unwrap();
    let second = database
        .signin("alice".to_string(), "pw123456".to_string())
        .unwrap();
    assert_ne!(first, second);
    assert_ne!(first.token, second.token);
    let alice = database.users().find_one("alice").unwrap();
    assert_eq!(alice.tokens, vec![first.clone(), second.clone()]);
    assert!(authorize(alice, &first.token));
    assert!(authorize(alice, &second.token));
}

#[test]
fn signup_stores_a_fresh_account() {
    let mut database = Database::new();
    let first = database
        .signup("alice".to_string(), "pw123456".to_string())
        .unwrap();
    assert_eq!(database.users().len(), 1);
    let alice = database.users().get(0).unwrap();
    assert_eq!(alice.name, "alice");
    assert!(!alice.admin);
    assert_eq!(alice.tokens, vec![first]);
    assert!(alice.recipes.is_empty());
    assert_ne!(alice.password, "pw123456");
    assert_eq!(verify("pw123456", &alice.password), Ok(true));
}

#[test]
fn signin_of_unknown_user_is_wrong_name_or_password() {
    let mut database = Database::new();
    assert_eq!(
        database.signin("bob".to_string(), "anything".to_string()),
        Err(SigninError::WrongNameOrPassword)
    );
    assert_eq!(database.users().len(), 0);
}

#[test]
fn signin_with_wrong_password_appends_no_token() {
    let mut database = Database::new();
    let first = database
        .signup("alice".to_string(), "pw123456".to_string())
        .unwrap();
    assert_eq!(
        database.signin("alice".to_string(), "pw654321".to_string()),
        Err(SigninError::WrongNameOrPassword)
    );
    let alice = database.users().find_one("alice").unwrap();
    assert_eq!(alice.tokens, vec![first]);
}

#[test]
fn signin_against_an_unreadable_hash_is_internal() {
    let mut database = Database::new();
    let first = token("dG9rZW4=", 7);
    let carol = User::new("carol".to_string(), "not a hash".to_string(), first.clone());
    assert_eq!(database.register(carol, first.clone()), Ok(first.clone()));
    assert_eq!(
        database.signin("carol".to_string(), "pw123456".to_string()),
        Err(SigninError::Internal)
    );
    let carol = database.users().find_one("carol").unwrap();
    assert_eq!(carol.tokens, vec![first]);
}

#[test]
fn every_signin_adds_one_token() {
    let mut database = Database::new();
    let mut issued = vec![database
        .signup("alice".to_string(), "pw123456".to_string())
        .unwrap()];
    for _ in 0..3 {
        issued.push(
            database
                .signin("alice".to_string(), "pw123456".to_string())
                .unwrap(),
        );
    }
    let alice = database.users().find_one("alice").unwrap();
    assert_eq!(alice.tokens, issued);
}

#[test]
fn signup_under_taken_name_is_refused() {
    let mut database = Database::new();
    let first = database
        .signup("alice".to_string(), "pw123456".to_string())
        .unwrap();
    let hash_before = database.users().find_one("alice").unwrap().password.clone();
    assert_eq!(
        database.signup("alice".to_string(), "other-password".to_string()),
        Err(SignupError::NameAlreadyTaken)
    );
    assert_eq!(database.users().len(), 1);
    let alice = database.users().find_one("alice").unwrap();
    assert_eq!(alice.password, hash_before);
    assert_eq!(alice.tokens, vec![first]);
    assert!(alice.recipes.is_empty());
}

#[test]
fn register_refuses_a_taken_name_and_keeps_the_first_account() {
    let mut database = Database::new();
    let first = token("first", 1);
    let second = token("second", 2);
    let owner = User::new("dave".to_string(), "hash one".to_string(), first.clone());
    let intruder = User::new("dave".to_string(), "hash two".to_string(), second.clone());
    assert_eq!(database.register(owner, first.clone()), Ok(first.clone()));
    assert_eq!(
        database.register(intruder, second),
        Err(SignupError::NameAlreadyTaken)
    );
    assert_eq!(database.users().len(), 1);
    let dave = database.users().find_one("dave").unwrap();
    assert_eq!(dave.password, "hash one");
    assert_eq!(dave.tokens, vec![first]);
}

#[test]
fn users_keep_their_order_and_their_names_apart() {
    let mut database = Database::new();
    for name in ["alice", "bob", "carol"] {
        let first = token(name, 0);
        let user = User::new(name.to_string(), "hash".to_string(), first.clone());
        assert_eq!(database.register(user, first.clone()), Ok(first));
    }
    assert_eq!(database.users().len(), 3);
    assert_eq!(database.users().get(0).unwrap().name, "alice");
    assert_eq!(database.users().get(1).unwrap().name, "bob");
    assert_eq!(database.users().get(2).unwrap().name, "carol");
    assert!(database.users().get(3).is_none());
    assert_eq!(database.users().find_one("bob").unwrap().tokens[0].token, "bob");
    assert!(database.users().find_one("Bob").is_none());
    assert!(database.users().find_one("").is_none());
}

#[test]
fn prepare_builds_the_account_around_its_token() {
    let (user, first) = prepare("erin".to_string(), "pw123456").unwrap();
    assert_eq!(user.name, "erin");
    assert!(!user.admin);
    assert_eq!(user.tokens, vec![first]);
    assert!(user.recipes.is_empty());
    assert_eq!(verify("pw123456", &user.password), Ok(true));
    assert_eq!(verify("pw1234567", &user.password), Ok(false));
}

#[test]
fn new_user_has_one_token_and_no_privilege() {
    let first = token("abc", 5);
    let user = User::new("frank".to_string(), "stored".to_string(), first.clone());
    assert_eq!(user.name, "frank");
    assert_eq!(user.password, "stored");
    assert!(!user.admin);
    assert_eq!(user.tokens, vec![first]);
    assert!(user.recipes.is_empty());
}

#[test]
fn signup_concludes_by_the_outcome_of_the_insert() {
    let first = token("abc", 5);
    assert_eq!(
        signup::conclude(InsertOutcome::Inserted, first.clone()),
        Ok(first.clone())
    );
    assert_eq!(
        signup::conclude(InsertOutcome::DuplicateKey, first.clone()),
        Err(SignupError::NameAlreadyTaken)
    );
    assert_eq!(
        signup::conclude(InsertOutcome::Failed, first),
        Err(SignupError::Database)
    );
}

#[test]
fn signin_concludes_by_the_outcome_of_the_update() {
    let second = token("def", 6);
    assert_eq!(
        signin::conclude(UpdateOutcome::Applied, second.clone()),
        Ok(second.clone())
    );
    assert_eq!(
        signin::conclude(UpdateOutcome::Failed, second),
        Err(SigninError::Database)
    );
}

#[test]
fn judge_tells_mismatch_from_failure() {
    assert_eq!(judge(Ok(true)), Ok(()));
    assert_eq!(judge(Ok(false)), Err(SigninError::WrongNameOrPassword));
    assert_eq!(judge(Err(InternalError)), Err(SigninError::Internal));
}

#[test]
fn authenticate_checks_the_stored_hash() {
    let stored = hash("pw123456").unwrap();
    let user = User::new("gina".to_string(), stored, token("abc", 5));
    assert_eq!(authenticate(Some(&user), "pw123456"), Ok(()));
    assert_eq!(
        authenticate(Some(&user), "PW123456"),
        Err(SigninError::WrongNameOrPassword)
    );
    assert_eq!(
        authenticate(None, "pw123456"),
        Err(SigninError::WrongNameOrPassword)
    );
    let broken = User::new("hank".to_string(), "$2b$12$short".to_string(), token("x", 1));
    assert_eq!(
        authenticate(Some(&broken), "pw123456"),
        Err(SigninError::Internal)
    );
}

#[test]
fn hashes_are_salted_and_verify() {
    let one = hash("pw123456").unwrap();
    let two = hash("pw123456").unwrap();
    assert_ne!(one, two);
    assert_ne!(one, "pw123456");
    assert_eq!(verify("pw123456", &one), Ok(true));
    assert_eq!(verify("pw123456", &two), Ok(true));
    assert_eq!(verify("", &one), Ok(false));
}

#[test]
fn verify_answers_for_a_known_hash() {
    let stored = "$2a$04$UuTkLRZZ6QofpDOlMz32MuuxEHA43WOemOYHPz6.SjsVsyO1tDU96";
    assert_eq!(verify("password", stored), Ok(true));
    assert_eq!(verify("password1", stored), Ok(false));
    assert_eq!(verify("password", "password"), Err(InternalError));
    assert_eq!(verify("password", ""), Err(InternalError));
}

#[test]
fn errors_of_accounts_in_words() {
    assert_eq!(SignupError::NameAlreadyTaken.message(), "Name already taken");
    assert_eq!(SignupError::Internal.message(), "Internal error");
    assert_eq!(SignupError::Database.message(), "Database error");
    assert_eq!(
        SigninError::WrongNameOrPassword.message(),
        "Wrong name or password"
    );
    assert_eq!(SigninError::Internal.message(), "Internal error");
    assert_eq!(SigninError::Database.message(), "Database error");
}

#[test]
fn a_failed_hashing_keeps_no_detail() {
    assert_eq!(
        conclude(Ok("$2b$12$stored".to_string())),
        Ok("$2b$12$stored".to_string())
    );
    assert_eq!(
        conclude(Err(bcrypt::BcryptError::CostNotAllowed(3))),
        Err(InternalError)
    );
    assert_eq!(
        conclude(Err(bcrypt::BcryptError::InvalidSaltLen(5))),
        Err(InternalError)
    );
}
