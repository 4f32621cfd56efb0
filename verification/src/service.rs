//! What the service replies to its clients.
//!
//! A refusal that a client may be told of is part of a reply that succeeds:
//! no token for a sign-in or a sign-up, `false` for a recipe that was not
//! created. A failure of the storage or of the hashing is collapsed into
//! [`ServerError`], which says nothing of its cause.

use vstd::prelude::*;

use crate::database::recipes::{GetRecipesError, NewRecipeError};
use crate::database::signin::SigninError;
use crate::database::signup::SignupError;
use crate::model::{Recipe, RecipeView, Token};

verus! {

/// The number of recipes that a client is shown at most.
pub const RECIPES_SHOWN: usize = 50;

/// A failure inside the service, of which a client learns nothing more.
#[derive(Clone, Copy, Debug, PartialEq, Eq, Structural)]
pub struct ServerError;

/// What a client is shown of a recipe in a listing.
#[derive(Debug)]
pub struct RecipeInfo {
    pub name: String,
    pub icon_url: String,
}

pub struct RecipeInfoView {
    pub name: Seq<char>,
    pub icon_url: Seq<char>,
}

impl View for RecipeInfo {
    type V = RecipeInfoView;

    open spec fn view(&self) -> RecipeInfoView {
        RecipeInfoView { name: self.name@, icon_url: self.icon_url@ }
    }
}

impl DeepView for RecipeInfo {
    type V = RecipeInfoView;

    open spec fn deep_view(&self) -> RecipeInfoView {
        self@
    }
}

/// What a listing shows of `recipe`.
pub open spec fn info_of(recipe: RecipeView) -> RecipeInfoView {
    RecipeInfoView { name: recipe.name, icon_url: recipe.icon_url }
}

/// What a listing shows of `recipes`: of each its name and icon, in order.
pub open spec fn infos_of(recipes: Seq<RecipeView>) -> Seq<RecipeInfoView> {
    recipes.map_values(|recipe: RecipeView| info_of(recipe))
}

/// The reply to a sign-in.
pub open spec fn signin_reply_of(answer: Result<Token, SigninError>) -> Result<
    Option<Token>,
    ServerError,
> {
    match answer {
        Ok(token) => Ok(Some(token)),
        Err(SigninError::WrongNameOrPassword) => Ok(None),
        Err(SigninError::Database) => Err(ServerError),
        Err(SigninError::Internal) => Err(ServerError),
    }
}

/// The reply to a sign-up.
pub open spec fn signup_reply_of(answer: Result<Token, SignupError>) -> Result<
    Option<Token>,
    ServerError,
> {
    match answer {
        Ok(token) => Ok(Some(token)),
        Err(SignupError::NameAlreadyTaken) => Ok(None),
        Err(SignupError::Database) => Err(ServerError),
        Err(SignupError::Internal) => Err(ServerError),
    }
}

/// The reply to the creation of a recipe.
pub open spec fn new_recipe_reply_of(answer: Result<(), NewRecipeError>) -> Result<
    bool,
    ServerError,
> {
    match answer {
        Ok(()) => Ok(true),
        Err(NewRecipeError::InvalidCredentials) => Ok(false),
        Err(NewRecipeError::Database) => Err(ServerError),
    }
}

/// Replies to a sign-in: the token, no token where the name or the password
/// is wrong, an error on any failure of the service.
pub fn signin_reply(answer: Result<Token, SigninError>) -> (reply: Result<
    Option<Token>,
    ServerError,
>)
    ensures
        reply == signin_reply_of(answer),
{
    match answer {
        Ok(token) => Ok(Some(token)),
        Err(SigninError::WrongNameOrPassword) => Ok(None),
        Err(SigninError::Database) => Err(ServerError),
        Err(SigninError::Internal) => Err(ServerError),
    }
}

/// Replies to a sign-up: the token, no token where the name is taken, an
/// error on any failure of the service.
pub fn signup_reply(answer: Result<Token, SignupError>) -> (reply: Result<
    Option<Token>,
    ServerError,
>)
    ensures
        reply == signup_reply_of(answer),
{
    match answer {
        Ok(token) => Ok(Some(token)),
        Err(SignupError::NameAlreadyTaken) => Ok(None),
        Err(SignupError::Database) => Err(ServerError),
        Err(SignupError::Internal) => Err(ServerError),
    }
}

/// Replies to the creation of a recipe: `true` where it was created,
/// `false` where the credentials are invalid, an error where the storage
/// failed.
pub fn new_recipe_reply(answer: Result<(), NewRecipeError>) -> (reply: Result<bool, ServerError>)
    ensures
        reply == new_recipe_reply_of(answer),
{
    match answer {
        Ok(()) => Ok(true),
        Err(NewRecipeError::InvalidCredentials) => Ok(false),
        Err(NewRecipeError::Database) => Err(ServerError),
    }
}

/// The name and the icon of every recipe, in order.
pub fn recipe_infos(recipes: Vec<Recipe>) -> (infos: Vec<RecipeInfo>)
    ensures
        infos.deep_view() == infos_of(recipes.deep_view()),
{
    let mut infos: Vec<RecipeInfo> = Vec::new();
    let mut i: usize = 0;
    while i < recipes.len()
        invariant
            i <= recipes.len(),
            infos.len() == i,
            forall|k: int| 0 <= k < i ==> (#[trigger] infos[k])@ == info_of(recipes[k]@),
        decreases recipes.len() - i,
    {
        let recipe = &recipes[i];
        infos.push(RecipeInfo { name: recipe.name.clone(), icon_url: recipe.icon_url.clone() });
        i += 1;
    }
    assert(infos.deep_view() =~= infos_of(recipes.deep_view()));
    infos
}

/// Replies to a listing: the name and the icon of every recipe that was
/// listed, or an error where the storage failed.
pub fn get_recipes_reply(answer: Result<Vec<Recipe>, GetRecipesError>) -> (reply: Result<
    Vec<RecipeInfo>,
    ServerError,
>)
    ensures
        match answer {
            Ok(recipes) => reply matches Ok(infos) && infos.deep_view() == infos_of(
                recipes.deep_view(),
            ),
            Err(_) => reply is Err,
        },
{
    match answer {
        Ok(recipes) => Ok(recipe_infos(recipes)),
        Err(GetRecipesError::Database) => Err(ServerError),
    }
}

} // verus!
