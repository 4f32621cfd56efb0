//! What holds of the use cases taken together.
//!
//! Each law is stated over the effects that the contracts of
//! [`Database`](crate::database::Database) promise, for every collection of
//! records with unique names.

use vstd::prelude::*;

use crate::credentials::bcrypt_verdict;
use crate::database::recipes::{
    all_recipes, entitled, listed, new_recipe_effect, NewRecipeError,
};
use crate::database::signin::{signin_effect, SigninError};
use crate::database::signup::{signup_effect, SignupError};
use crate::model::{RecipeView, Token, UserView};
use crate::token::authorizes;
use crate::users::{
    find, has_user, lemma_names_stay, lemma_place_of_name, position, unique_names,
};

verus! {

/// A sign-up that succeeded, followed at once by a sign-in under the same
/// name with the same password: the sign-in succeeds, and both the token of
/// the sign-up and the token of the sign-in authorize the account.
pub proof fn lemma_signin_follows_signup(
    before: Seq<UserView>,
    name: Seq<char>,
    password: Seq<char>,
    between: Seq<UserView>,
    first: Token,
    after: Seq<UserView>,
    answer: Result<Token, SigninError>,
)
    requires
        unique_names(before),
        signup_effect(before, name, password, between, Ok(first)),
        signin_effect(between, name, password, after, answer),
    ensures
        unique_names(after),
        answer matches Ok(second) && find(after, name) matches Some(user) && authorizes(
            user,
            second@.token,
        ) && authorizes(user, first@.token),
{
    let at = before.len() as int;
    assert(between.drop_last() == before);
    assert forall|i: int, j: int| 0 <= i < j < between.len() implies (#[trigger] between[i]).name
        != (#[trigger] between[j]).name by {
        assert(between[i] == before[i]);
        if j < at {
            assert(between[j] == before[j]);
        }
    }
    lemma_place_of_name(between, name, at);
    match answer {
        Ok(second) => {
            let user = after[at];
            lemma_names_stay(between, at, user);
            lemma_place_of_name(after, name, at);
            assert(user.tokens[0].token == first@.token);
            assert(user.tokens[1].token == second@.token);
        },
        Err(_) => {},
    }
}

/// A sign-up under a name that an account bears already fails and changes
/// nothing. The reason is `NameAlreadyTaken`, unless the password could not
/// be hashed in the first place.
pub proof fn lemma_taken_name_is_refused(
    before: Seq<UserView>,
    name: Seq<char>,
    password: Seq<char>,
    after: Seq<UserView>,
    answer: Result<Token, SignupError>,
)
    requires
        signup_effect(before, name, password, after, answer),
        has_user(before, name),
    ensures
        after == before,
        answer == Err::<Token, SignupError>(SignupError::NameAlreadyTaken) || answer == Err::<
            Token,
            SignupError,
        >(SignupError::Internal),
{
}

/// A sign-in to an existing account with a password that the stored hash
/// does not accept fails with `WrongNameOrPassword`, and appends no token.
pub proof fn lemma_wrong_password_is_refused(
    before: Seq<UserView>,
    name: Seq<char>,
    password: Seq<char>,
    after: Seq<UserView>,
    answer: Result<Token, SigninError>,
)
    requires
        signin_effect(before, name, password, after, answer),
        find(before, name) matches Some(user) && bcrypt_verdict(password, user.password) == Some(
            false,
        ),
    ensures
        answer == Err::<Token, SigninError>(SigninError::WrongNameOrPassword),
        after == before,
{
}

/// A sign-in under a name that no account bears fails with
/// `WrongNameOrPassword`, and changes nothing.
pub proof fn lemma_unknown_name_is_refused(
    before: Seq<UserView>,
    name: Seq<char>,
    password: Seq<char>,
    after: Seq<UserView>,
    answer: Result<Token, SigninError>,
)
    requires
        signin_effect(before, name, password, after, answer),
        !has_user(before, name),
    ensures
        answer == Err::<Token, SigninError>(SigninError::WrongNameOrPassword),
        after == before,
{
}

/// Creating a recipe with a token that is none of the account's fails with
/// `InvalidCredentials`, and leaves every record, the account's recipes
/// among them, as it was.
pub proof fn lemma_foreign_token_is_refused(
    before: Seq<UserView>,
    user_name: Seq<char>,
    user_token: Seq<char>,
    recipe: RecipeView,
    after: Seq<UserView>,
    answer: Result<(), NewRecipeError>,
)
    requires
        new_recipe_effect(before, user_name, user_token, recipe, after, answer),
        find(before, user_name) matches Some(user) ==> !authorizes(user, user_token),
    ensures
        answer == Err::<(), NewRecipeError>(NewRecipeError::InvalidCredentials),
        after == before,
{
}

/// Creating a recipe with a token of the account succeeds and appends
/// exactly that recipe to the account's recipes. The account is otherwise
/// as it was, and so is every other record; the token goes on to authorize.
pub proof fn lemma_recipe_is_appended(
    before: Seq<UserView>,
    user_name: Seq<char>,
    user_token: Seq<char>,
    recipe: RecipeView,
    after: Seq<UserView>,
    answer: Result<(), NewRecipeError>,
)
    requires
        unique_names(before),
        new_recipe_effect(before, user_name, user_token, recipe, after, answer),
        entitled(find(before, user_name), user_token),
    ensures
        answer == Ok::<(), NewRecipeError>(()),
        unique_names(after),
        entitled(find(after, user_name), user_token),
        find(before, user_name) matches Some(owner) && find(after, user_name) == Some(
            UserView { recipes: owner.recipes.push(recipe), ..owner },
        ),
        after.len() == before.len(),
        forall|i: int|
            0 <= i < before.len() && (#[trigger] before[i]).name != user_name ==> after[i]
                == before[i],
{
    let at = position(before, user_name);
    let owner = before[at];
    let changed = UserView { recipes: owner.recipes.push(recipe), ..owner };
    lemma_names_stay(before, at, changed);
    lemma_place_of_name(after, user_name, at);
    let held = choose|i: int|
        0 <= i < owner.tokens.len() && (#[trigger] owner.tokens[i]).token == user_token;
    assert(changed.tokens[held].token == user_token);
}

/// The calls of a run: for every `k`, creating `recipes[k]` in the name of
/// `user_name` with `user_token` took the records from `states[k]` to
/// `states[k + 1]` and answered `answers[k]`.
pub open spec fn created_in_turn(
    states: Seq<Seq<UserView>>,
    user_name: Seq<char>,
    user_token: Seq<char>,
    recipes: Seq<RecipeView>,
    answers: Seq<Result<(), NewRecipeError>>,
) -> bool {
    &&& states.len() == recipes.len() + 1
    &&& answers.len() == recipes.len()
    &&& forall|k: int|
        0 <= k < recipes.len() ==> new_recipe_effect(
            states[k],
            user_name,
            user_token,
            #[trigger] recipes[k],
            states[k + 1],
            answers[k],
        )
}

/// Creating recipes one after another with a token of the account: every
/// call succeeds, and in the end the account's recipes are those it had,
/// followed by the new ones in the order of the calls.
pub proof fn lemma_recipes_accumulate(
    states: Seq<Seq<UserView>>,
    user_name: Seq<char>,
    user_token: Seq<char>,
    recipes: Seq<RecipeView>,
    answers: Seq<Result<(), NewRecipeError>>,
)
    requires
        created_in_turn(states, user_name, user_token, recipes, answers),
        unique_names(states[0]),
        entitled(find(states[0], user_name), user_token),
    ensures
        forall|k: int| 0 <= k < answers.len() ==> answers[k] == Ok::<(), NewRecipeError>(()),
        unique_names(states.last()),
        entitled(find(states.last(), user_name), user_token),
        find(states[0], user_name) matches Some(owner) && find(states.last(), user_name)
            matches Some(user) && user.recipes == owner.recipes + recipes,
    decreases recipes.len(),
{
    let owner = find(states[0], user_name)->Some_0;
    if recipes.len() == 0 {
        assert(owner.recipes + recipes =~= owner.recipes);
    } else {
        let calls = recipes.len() - 1;
        let earlier = recipes.drop_last();
        assert forall|k: int| 0 <= k < earlier.len() implies new_recipe_effect(
            states.drop_last()[k],
            user_name,
            user_token,
            #[trigger] earlier[k],
            states.drop_last()[k + 1],
            answers.drop_last()[k],
        ) by {
            assert(earlier[k] == recipes[k]);
        }
        lemma_recipes_accumulate(
            states.drop_last(),
            user_name,
            user_token,
            earlier,
            answers.drop_last(),
        );
        assert(states.drop_last().last() == states[calls]);
        assert(recipes[calls] == recipes.last());
        lemma_recipe_is_appended(
            states[calls],
            user_name,
            user_token,
            recipes[calls],
            states[calls + 1],
            answers[calls],
        );
        assert forall|k: int| 0 <= k < answers.len() implies answers[k] == Ok::<
            (),
            NewRecipeError,
        >(()) by {
            if k < calls {
                assert(answers.drop_last()[k] == answers[k]);
            }
        }
        assert((owner.recipes + earlier).push(recipes[calls]) =~= owner.recipes + recipes);
    }
}

/// A listing never holds more recipes than its limit, and where all users
/// together own no more recipes than the limit, it holds exactly them.
pub proof fn lemma_listing_is_bounded(users: Seq<UserView>, limit: int)
    requires
        0 <= limit,
    ensures
        listed(users, limit).len() <= limit,
        listed(users, limit) == all_recipes(users).take(listed(users, limit).len() as int),
        all_recipes(users).len() <= limit ==> listed(users, limit) == all_recipes(users),
{
    let all = all_recipes(users);
    if all.len() <= limit {
        assert(all.take(all.len() as int) =~= all);
    }
}

} // verus!
