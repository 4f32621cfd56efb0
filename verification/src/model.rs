//! The records of the service and their mathematical views.
//!
//! Every record has a view that replaces strings by `Seq<char>` and vectors
//! by `Seq`; the contracts of the whole crate speak of those views.

use vstd::prelude::*;
use vstd::std_specs::cmp::PartialEqSpecImpl;

verus! {

/// The identifier of a stored document: twelve opaque bytes.
#[derive(Clone, Copy, Debug)]
pub struct ObjectId {
    pub bytes: [u8; 12],
}

impl View for ObjectId {
    type V = Seq<u8>;

    open spec fn view(&self) -> Seq<u8> {
        self.bytes@
    }
}

impl DeepView for ObjectId {
    type V = Seq<u8>;

    open spec fn deep_view(&self) -> Seq<u8> {
        self@
    }
}

/// A bearer token: an opaque string, and the instant at which it expires in
/// milliseconds since the Unix epoch.
#[derive(Debug)]
pub struct Token {
    pub token: String,
    pub expiration: i64,
}

pub struct TokenView {
    pub token: Seq<char>,
    pub expiration: i64,
}

impl View for Token {
    type V = TokenView;

    open spec fn view(&self) -> TokenView {
        TokenView { token: self.token@, expiration: self.expiration }
    }
}

impl DeepView for Token {
    type V = TokenView;

    open spec fn deep_view(&self) -> TokenView {
        self@
    }
}

impl Clone for Token {
    fn clone(&self) -> (copy: Self)
        ensures
            copy@ == self@,
    {
        Token { token: self.token.clone(), expiration: self.expiration }
    }
}

impl PartialEq for Token {
    /// Two tokens are equal when both the string and the expiration agree.
    fn eq(&self, other: &Self) -> (equal: bool) {
        self.token == other.token && self.expiration == other.expiration
    }
}

impl Eq for Token {

}

impl PartialEqSpecImpl for Token {
    open spec fn obeys_eq_spec() -> bool {
        true
    }

    open spec fn eq_spec(&self, other: &Self) -> bool {
        self.token@ == other.token@ && self.expiration == other.expiration
    }
}

/// One thing that goes into a recipe, and how much of it.
#[derive(Debug)]
pub struct Ingredient {
    pub name: String,
    pub icon_url: String,
    pub quantity: String,
}

pub struct IngredientView {
    pub name: Seq<char>,
    pub icon_url: Seq<char>,
    pub quantity: Seq<char>,
}

impl View for Ingredient {
    type V = IngredientView;

    open spec fn view(&self) -> IngredientView {
        IngredientView { name: self.name@, icon_url: self.icon_url@, quantity: self.quantity@ }
    }
}

impl DeepView for Ingredient {
    type V = IngredientView;

    open spec fn deep_view(&self) -> IngredientView {
        self@
    }
}

impl Clone for Ingredient {
    fn clone(&self) -> (copy: Self)
        ensures
            copy@ == self@,
    {
        Ingredient {
            name: self.name.clone(),
            icon_url: self.icon_url.clone(),
            quantity: self.quantity.clone(),
        }
    }
}

impl Default for Ingredient {
    /// The ingredient whose three strings are empty.
    fn default() -> (blank: Self)
        ensures
            blank@ == (IngredientView {
                name: Seq::empty(),
                icon_url: Seq::empty(),
                quantity: Seq::empty(),
            }),
    {
        Ingredient { name: String::new(), icon_url: String::new(), quantity: String::new() }
    }
}

/// A utensil that a recipe calls for.
#[derive(Debug)]
pub struct Tool {
    pub name: String,
    pub icon_url: String,
}

pub struct ToolView {
    pub name: Seq<char>,
    pub icon_url: Seq<char>,
}

impl View for Tool {
    type V = ToolView;

    open spec fn view(&self) -> ToolView {
        ToolView { name: self.name@, icon_url: self.icon_url@ }
    }
}

impl DeepView for Tool {
    type V = ToolView;

    open spec fn deep_view(&self) -> ToolView {
        self@
    }
}

impl Clone for Tool {
    fn clone(&self) -> (copy: Self)
        ensures
            copy@ == self@,
    {
        Tool { name: self.name.clone(), icon_url: self.icon_url.clone() }
    }
}

impl Default for Tool {
    /// The tool whose two strings are empty.
    fn default() -> (blank: Self)
        ensures
            blank@ == (ToolView { name: Seq::empty(), icon_url: Seq::empty() }),
    {
        Tool { name: String::new(), icon_url: String::new() }
    }
}

/// A label under which recipes can be grouped.
#[derive(Debug)]
pub struct Category {
    pub name: String,
}

pub struct CategoryView {
    pub name: Seq<char>,
}

impl View for Category {
    type V = CategoryView;

    open spec fn view(&self) -> CategoryView {
        CategoryView { name: self.name@ }
    }
}

impl DeepView for Category {
    type V = CategoryView;

    open spec fn deep_view(&self) -> CategoryView {
        self@
    }
}

impl Clone for Category {
    fn clone(&self) -> (copy: Self)
        ensures
            copy@ == self@,
    {
        Category { name: self.name.clone() }
    }
}

/// A remark left on a recipe; `date` is in milliseconds since the Unix epoch.
#[derive(Debug)]
pub struct Comment {
    pub content: String,
    pub date: i64,
    pub user: ObjectId,
}

pub struct CommentView {
    pub content: Seq<char>,
    pub date: i64,
    pub user: Seq<u8>,
}

impl View for Comment {
    type V = CommentView;

    open spec fn view(&self) -> CommentView {
        CommentView { content: self.content@, date: self.date, user: self.user@ }
    }
}

impl DeepView for Comment {
    type V = CommentView;

    open spec fn deep_view(&self) -> CommentView {
        self@
    }
}

impl Clone for Comment {
    fn clone(&self) -> (copy: Self)
        ensures
            copy@ == self@,
    {
        Comment { content: self.content.clone(), date: self.date, user: self.user }
    }
}

/// A mark that a user gave to a recipe.
#[derive(Clone, Copy, Debug)]
pub struct Note {
    pub note: u8,
    pub user: ObjectId,
}

pub struct NoteView {
    pub note: u8,
    pub user: Seq<u8>,
}

impl View for Note {
    type V = NoteView;

    open spec fn view(&self) -> NoteView {
        NoteView { note: self.note, user: self.user@ }
    }
}

impl DeepView for Note {
    type V = NoteView;

    open spec fn deep_view(&self) -> NoteView {
        self@
    }
}

/// A recipe, with everything that belongs to it.
#[derive(Debug)]
pub struct Recipe {
    pub name: String,
    pub instructions: Vec<String>,
    pub icon_url: String,
    pub price_level: u8,
    pub healthy_level: u8,
    pub comment: Vec<Comment>,
    pub notes: Vec<Note>,
    pub ingredients: Vec<Ingredient>,
    pub tools: Vec<Tool>,
    pub categories: Vec<ObjectId>,
}

pub struct RecipeView {
    pub name: Seq<char>,
    pub instructions: Seq<Seq<char>>,
    pub icon_url: Seq<char>,
    pub price_level: u8,
    pub healthy_level: u8,
    pub comment: Seq<CommentView>,
    pub notes: Seq<NoteView>,
    pub ingredients: Seq<IngredientView>,
    pub tools: Seq<ToolView>,
    pub categories: Seq<Seq<u8>>,
}

impl View for Recipe {
    type V = RecipeView;

    open spec fn view(&self) -> RecipeView {
        RecipeView {
            name: self.name@,
            instructions: self.instructions.deep_view(),
            icon_url: self.icon_url@,
            price_level: self.price_level,
            healthy_level: self.healthy_level,
            comment: self.comment.deep_view(),
            notes: self.notes.deep_view(),
            ingredients: self.ingredients.deep_view(),
            tools: self.tools.deep_view(),
            categories: self.categories.deep_view(),
        }
    }
}

impl DeepView for Recipe {
    type V = RecipeView;

    open spec fn deep_view(&self) -> RecipeView {
        self@
    }
}

impl Clone for Recipe {
    fn clone(&self) -> (copy: Self)
        ensures
            copy@ == self@,
    {
        let instructions = self.instructions.clone();
        let comment = self.comment.clone();
        let notes = self.notes.clone();
        let ingredients = self.ingredients.clone();
        let tools = self.tools.clone();
        let categories = self.categories.clone();
        proof {
            assert(instructions.deep_view() =~= self.instructions.deep_view());
            assert(comment.deep_view() =~= self.comment.deep_view());
            assert(notes.deep_view() =~= self.notes.deep_view());
            assert(ingredients.deep_view() =~= self.ingredients.deep_view());
            assert(tools.deep_view() =~= self.tools.deep_view());
            assert(categories.deep_view() =~= self.categories.deep_view());
        }
        Recipe {
            name: self.name.clone(),
            instructions,
            icon_url: self.icon_url.clone(),
            price_level: self.price_level,
            healthy_level: self.healthy_level,
            comment,
            notes,
            ingredients,
            tools,
            categories,
        }
    }
}

/// An account: its credentials, its live tokens and the recipes it owns.
#[derive(Debug)]
pub struct User {
    pub name: String,
    pub password: String,
    pub admin: bool,
    pub tokens: Vec<Token>,
    pub recipes: Vec<Recipe>,
}

pub struct UserView {
    pub name: Seq<char>,
    pub password: Seq<char>,
    pub admin: bool,
    pub tokens: Seq<TokenView>,
    pub recipes: Seq<RecipeView>,
}

impl View for User {
    type V = UserView;

    open spec fn view(&self) -> UserView {
        UserView {
            name: self.name@,
            password: self.password@,
            admin: self.admin,
            tokens: self.tokens.deep_view(),
            recipes: self.recipes.deep_view(),
        }
    }
}

impl DeepView for User {
    type V = UserView;

    open spec fn deep_view(&self) -> UserView {
        self@
    }
}

impl Clone for User {
    fn clone(&self) -> (copy: Self)
        ensures
            copy@ == self@,
    {
        let tokens = self.tokens.clone();
        let recipes = self.recipes.clone();
        proof {
            assert(tokens.deep_view() =~= self.tokens.deep_view());
            assert(recipes.deep_view() =~= self.recipes.deep_view());
        }
        User {
            name: self.name.clone(),
            password: self.password.clone(),
            admin: self.admin,
            tokens,
            recipes,
        }
    }
}

} // verus!
