//! Creating a recipe, and listing the recipes of all users.

use vstd::prelude::*;

use super::Database;
use crate::model::{Ingredient, IngredientView, Recipe, RecipeView, Tool, ToolView, User, UserView};
use crate::token::{authorize, authorizes};
use crate::users::{find, position, with_recipe, UpdateOutcome};

verus! {

/// Why the recipes could not be listed.
#[derive(Clone, Copy, Debug, PartialEq, Eq, Structural)]
pub enum GetRecipesError {
    /// The storage failed.
    Database,
}

impl GetRecipesError {
    /// The error in words.
    pub fn message(&self) -> (text: &'static str)
        ensures
            text@ == "Database error"@,
    {
        "Database error"
    }
}

/// Why a recipe was not created.
#[derive(Clone, Copy, Debug, PartialEq, Eq, Structural)]
pub enum NewRecipeError {
    /// The storage failed.
    Database,
    /// No account bears the name, or the token is none of the account's.
    InvalidCredentials,
}

impl NewRecipeError {
    /// The error in words.
    pub fn message(&self) -> (text: &'static str)
        ensures
            text@ == match self {
                NewRecipeError::Database => "Database error"@,
                NewRecipeError::InvalidCredentials => "Invalid credentials"@,
            },
    {
        match self {
            NewRecipeError::Database => "Database error",
            NewRecipeError::InvalidCredentials => "Invalid credentials",
        }
    }
}

/// The recipe made of the given fields: nobody has commented on it, marked
/// it or put it into a category yet.
pub open spec fn new_recipe_view(
    name: Seq<char>,
    icon_url: Seq<char>,
    price_level: u8,
    healthy_level: u8,
    instructions: Seq<Seq<char>>,
    ingredients: Seq<IngredientView>,
    tools: Seq<ToolView>,
) -> RecipeView {
    RecipeView {
        name,
        instructions,
        icon_url,
        price_level,
        healthy_level,
        comment: Seq::empty(),
        notes: Seq::empty(),
        ingredients,
        tools,
        categories: Seq::empty(),
    }
}

/// The account was found and `presented` is one of its tokens. An unknown
/// name and a wrong token are not told apart.
pub open spec fn entitled(found: Option<UserView>, presented: Seq<char>) -> bool {
    found matches Some(user) && authorizes(user, presented)
}

/// What creating `recipe` in the name of `user_name` does to the records
/// and answers. With a token of the account, the recipe is appended to the
/// account's recipes. Otherwise the answer is `InvalidCredentials` and
/// nothing changes.
pub open spec fn new_recipe_effect(
    before: Seq<UserView>,
    user_name: Seq<char>,
    user_token: Seq<char>,
    recipe: RecipeView,
    after: Seq<UserView>,
    answer: Result<(), NewRecipeError>,
) -> bool {
    if entitled(find(before, user_name), user_token) {
        &&& answer == Ok::<(), NewRecipeError>(())
        &&& after == with_recipe(before, position(before, user_name), recipe)
    } else {
        &&& answer == Err::<(), NewRecipeError>(NewRecipeError::InvalidCredentials)
        &&& after == before
    }
}

/// What creating a recipe answers once the append of the recipe has ended.
pub open spec fn new_recipe_answer(outcome: UpdateOutcome) -> Result<(), NewRecipeError> {
    match outcome {
        UpdateOutcome::Applied => Ok(()),
        UpdateOutcome::Failed => Err(NewRecipeError::Database),
    }
}

/// The recipes of all users, user after user, each user's in their order.
pub open spec fn all_recipes(users: Seq<UserView>) -> Seq<RecipeView>
    decreases users.len(),
{
    if users.len() == 0 {
        Seq::empty()
    } else {
        all_recipes(users.drop_last()) + users.last().recipes
    }
}

/// What a listing is cut down to: its first `limit` recipes, or all of them
/// where there are no more than `limit`.
pub open spec fn cut(recipes: Seq<RecipeView>, limit: int) -> Seq<RecipeView> {
    if recipes.len() <= limit {
        recipes
    } else {
        recipes.take(limit)
    }
}

/// What a listing with the limit `limit` returns: the first `limit` of all
/// recipes, or all of them where there are no more.
pub open spec fn listed(users: Seq<UserView>, limit: int) -> Seq<RecipeView> {
    cut(all_recipes(users), limit)
}

/// The recipes of the first `count + 1` users are those of the first `count`
/// users, followed by those of the next user.
pub proof fn lemma_all_recipes_step(users: Seq<UserView>, count: int)
    requires
        0 <= count < users.len(),
    ensures
        all_recipes(users.take(count + 1)) == all_recipes(users.take(count)) + users[count].recipes,
{
    assert(users.take(count + 1).drop_last() =~= users.take(count));
}

/// The recipes of the first `count` users open the recipes of all users.
pub proof fn lemma_all_recipes_prefix(users: Seq<UserView>, count: int)
    requires
        0 <= count <= users.len(),
    ensures
        all_recipes(users.take(count)).len() <= all_recipes(users).len(),
        all_recipes(users).take(all_recipes(users.take(count)).len() as int) == all_recipes(
            users.take(count),
        ),
    decreases users.len(),
{
    if count == users.len() {
        assert(users.take(count) =~= users);
        assert(all_recipes(users).take(all_recipes(users).len() as int) =~= all_recipes(users));
    } else {
        let fewer = users.drop_last();
        lemma_all_recipes_prefix(fewer, count);
        assert(fewer.take(count) =~= users.take(count));
        let opening = all_recipes(users.take(count));
        assert(all_recipes(users).take(opening.len() as int) =~= all_recipes(fewer).take(
            opening.len() as int,
        ));
    }
}

impl Recipe {
    /// The recipe made of the given fields, without comments, notes or
    /// categories.
    pub fn new(
        name: String,
        icon_url: String,
        price_level: u8,
        healthy_level: u8,
        instructions: Vec<String>,
        ingredients: Vec<Ingredient>,
        tools: Vec<Tool>,
    ) -> (recipe: Recipe)
        ensures
            recipe@ == new_recipe_view(
                name@,
                icon_url@,
                price_level,
                healthy_level,
                instructions.deep_view(),
                ingredients.deep_view(),
                tools.deep_view(),
            ),
    {
        let recipe = Recipe {
            name,
            instructions,
            icon_url,
            price_level,
            healthy_level,
            comment: Vec::new(),
            notes: Vec::new(),
            ingredients,
            tools,
            categories: Vec::new(),
        };
        assert(recipe.comment.deep_view() =~= Seq::empty());
        assert(recipe.notes.deep_view() =~= Seq::empty());
        assert(recipe.categories.deep_view() =~= Seq::empty());
        recipe
    }
}

/// Decides whether a recipe may be created in the name of the account
/// `found`, for which `presented` was handed in as a token; `None` stands
/// for a name that no account bears.
pub fn check_credentials(found: Option<&User>, presented: &str) -> (verdict: Result<
    (),
    NewRecipeError,
>)
    ensures
        verdict == if entitled(
            match found {
                Some(user) => Some(user@),
                None => None,
            },
            presented@,
        ) {
            Ok::<(), NewRecipeError>(())
        } else {
            Err::<(), NewRecipeError>(NewRecipeError::InvalidCredentials)
        },
{
    match found {
        None => Err(NewRecipeError::InvalidCredentials),
        Some(user) => {
            if authorize(user, presented) {
                Ok(())
            } else {
                Err(NewRecipeError::InvalidCredentials)
            }
        },
    }
}

/// Decides what creating a recipe answers once the append of the recipe has
/// ended: success, or `Database` where the storage failed.
pub fn conclude(outcome: UpdateOutcome) -> (answer: Result<(), NewRecipeError>)
    ensures
        answer == new_recipe_answer(outcome),
{
    match outcome {
        UpdateOutcome::Applied => Ok(()),
        UpdateOutcome::Failed => Err(NewRecipeError::Database),
    }
}

/// A listing in the making: the recipes gathered so far from the users
/// visited, and the number of recipes asked for.
pub struct Listing {
    recipes: Vec<Recipe>,
    limit: usize,
}

impl Listing {
    /// The recipes gathered so far.
    pub closed spec fn gathered(&self) -> Seq<RecipeView> {
        self.recipes.deep_view()
    }

    /// The number of recipes asked for.
    pub closed spec fn limit(&self) -> usize {
        self.limit
    }

    /// A listing of at most `limit` recipes, with nothing gathered yet.
    pub fn new(limit: usize) -> (listing: Listing)
        ensures
            listing.gathered() == Seq::<RecipeView>::empty(),
            listing.limit() == limit,
    {
        let listing = Listing { recipes: Vec::new(), limit };
        assert(listing.recipes.deep_view() =~= Seq::<RecipeView>::empty());
        listing
    }

    /// Tells whether enough is gathered, so that no further user need be
    /// visited.
    pub fn is_full(&self) -> (full: bool)
        ensures
            full == (self.gathered().len() >= self.limit()),
    {
        self.recipes.len() >= self.limit
    }

    /// Gathers all recipes of `user`, in their order.
    pub fn visit(&mut self, user: &User)
        ensures
            final(self).gathered() == old(self).gathered() + user@.recipes,
            final(self).limit() == old(self).limit(),
    {
        self.recipes.extend_from_slice(user.recipes.as_slice());
        assert(self.recipes.deep_view() =~= old(self).recipes.deep_view() + user@.recipes);
    }

    /// Ends the listing: what was gathered, cut down to the limit.
    pub fn finish(self) -> (recipes: Vec<Recipe>)
        ensures
            recipes.deep_view() == cut(self.gathered(), self.limit() as int),
    {
        let mut recipes = self.recipes;
        if recipes.len() > self.limit {
            recipes.truncate(self.limit);
            assert(recipes.deep_view() =~= self.gathered().take(self.limit() as int));
        }
        recipes
    }
}

impl Database {
    /// Appends the recipe made of the given fields to the recipes of
    /// `user_name`, provided that the account exists and `user_token` is one
    /// of its tokens. Otherwise the answer is `InvalidCredentials` and
    /// nothing changes.
    pub fn new_recipe(
        &mut self,
        user_name: String,
        user_token: String,
        name: String,
        icon_url: String,
        price_level: u8,
        healthy_level: u8,
        instructions: Vec<String>,
        ingredients: Vec<Ingredient>,
        tools: Vec<Tool>,
    ) -> (answer: Result<(), NewRecipeError>)
        ensures
            new_recipe_effect(
                old(self)@,
                user_name@,
                user_token@,
                new_recipe_view(
                    name@,
                    icon_url@,
                    price_level,
                    healthy_level,
                    instructions.deep_view(),
                    ingredients.deep_view(),
                    tools.deep_view(),
                ),
                final(self)@,
                answer,
            ),
    {
        match check_credentials(self.users.find_one(user_name.as_str()), user_token.as_str()) {
            Ok(()) => {
                let recipe = Recipe::new(
                    name,
                    icon_url,
                    price_level,
                    healthy_level,
                    instructions,
                    ingredients,
                    tools,
                );
                self.users.push_recipe(user_name.as_str(), recipe);
                Ok(())
            },
            Err(error) => Err(error),
        }
    }

    /// Lists recipes: the users are visited in the order of their records
    /// until `limit` recipes are gathered or no user is left, and what was
    /// gathered is cut down to `limit`. The database itself never fails.
    pub fn get_recipes(&self, limit: usize) -> (answer: Result<Vec<Recipe>, GetRecipesError>)
        ensures
            answer matches Ok(recipes) && recipes.deep_view() == listed(self@, limit as int),
    {
        let count = self.users.len();
        let mut listing = Listing::new(limit);
        let mut visited: usize = 0;
        proof {
            assert(self@.take(0) =~= Seq::<UserView>::empty());
        }
        while visited < count && !listing.is_full()
            invariant
                visited <= count,
                count == self@.len(),
                listing.limit() == limit,
                listing.gathered() == all_recipes(self@.take(visited as int)),
            decreases count - visited,
        {
            match self.users.get(visited) {
                Some(user) => {
                    proof {
                        lemma_all_recipes_step(self@, visited as int);
                    }
                    listing.visit(user);
                },
                None => {},
            }
            visited += 1;
        }
        proof {
            lemma_all_recipes_prefix(self@, visited as int);
            let gathered = listing.gathered();
            let all = all_recipes(self@);
            if gathered.len() >= limit {
                assert(cut(gathered, limit as int) =~= cut(all, limit as int));
            } else {
                assert(self@.take(visited as int) =~= self@);
            }
        }
        Ok(listing.finish())
    }
}

} // verus!
