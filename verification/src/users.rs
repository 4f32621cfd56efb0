//! The collection of user records: one record per name.
//!
//! The collection is the whole persisted state. It refuses a second record
//! under a name that is taken, finds a record by its name, and appends to the
//! token list or the recipe list of one record. Nothing is ever removed.

use vstd::prelude::*;

use crate::model::{Recipe, RecipeView, Token, TokenView, User, UserView};

verus! {

/// Some record in `users` bears `name`.
pub open spec fn has_user(users: Seq<UserView>, name: Seq<char>) -> bool {
    exists|i: int| 0 <= i < users.len() && (#[trigger] users[i]).name == name
}

/// The place of a record that bears `name`; meaningful where there is one.
pub open spec fn position(users: Seq<UserView>, name: Seq<char>) -> int {
    choose|i: int| 0 <= i < users.len() && (#[trigger] users[i]).name == name
}

/// The record that bears `name`, if there is one.
pub open spec fn find(users: Seq<UserView>, name: Seq<char>) -> Option<UserView> {
    if has_user(users, name) {
        Some(users[position(users, name)])
    } else {
        None
    }
}

/// No two records bear the same name.
pub open spec fn unique_names(users: Seq<UserView>) -> bool {
    forall|i: int, j: int|
        0 <= i < j < users.len() ==> (#[trigger] users[i]).name != (#[trigger] users[j]).name
}

/// `users` after `token` was appended to the tokens of the record at `at`.
pub open spec fn with_token(users: Seq<UserView>, at: int, token: TokenView) -> Seq<UserView> {
    users.update(at, UserView { tokens: users[at].tokens.push(token), ..users[at] })
}

/// `users` after `recipe` was appended to the recipes of the record at `at`.
pub open spec fn with_recipe(users: Seq<UserView>, at: int, recipe: RecipeView) -> Seq<UserView> {
    users.update(at, UserView { recipes: users[at].recipes.push(recipe), ..users[at] })
}

/// Among unique names, the record that bears a name is found at its place.
pub proof fn lemma_place_of_name(users: Seq<UserView>, name: Seq<char>, at: int)
    requires
        unique_names(users),
        0 <= at < users.len(),
        users[at].name == name,
    ensures
        has_user(users, name),
        position(users, name) == at,
        find(users, name) == Some(users[at]),
{
    let found = position(users, name);
    assert(0 <= found < users.len() && users[found].name == name);
    if found < at {
        assert(users[found].name != users[at].name);
    } else if at < found {
        assert(users[at].name != users[found].name);
    }
}

/// A record that changes while it keeps its name leaves the names unique,
/// and every name where it was.
pub proof fn lemma_names_stay(users: Seq<UserView>, at: int, changed: UserView)
    requires
        unique_names(users),
        0 <= at < users.len(),
        changed.name == users[at].name,
    ensures
        unique_names(users.update(at, changed)),
        forall|name: Seq<char>| #[trigger]
            has_user(users.update(at, changed), name) == has_user(users, name),
        forall|name: Seq<char>|
            has_user(users, name) ==> #[trigger] position(users.update(at, changed), name)
                == position(users, name),
{
    let after = users.update(at, changed);
    assert forall|i: int, j: int| 0 <= i < j < after.len() implies (#[trigger] after[i]).name != (
    #[trigger] after[j]).name by {
        assert(after[i].name == users[i].name);
        assert(after[j].name == users[j].name);
    }
    assert forall|name: Seq<char>| #[trigger]
        has_user(after, name) == has_user(users, name) by {
        if has_user(users, name) {
            let i = position(users, name);
            assert(after[i].name == name);
        }
        if has_user(after, name) {
            let i = position(after, name);
            assert(users[i].name == name);
        }
    }
    assert forall|name: Seq<char>| has_user(users, name) implies #[trigger] position(after, name)
        == position(users, name) by {
        let i = position(users, name);
        assert(after[i].name == name);
        lemma_place_of_name(after, name, i);
    }
}

/// How an attempt to insert a record ended.
#[derive(Clone, Copy, Debug, PartialEq, Eq, Structural)]
pub enum InsertOutcome {
    /// The record is stored.
    Inserted,
    /// The uniqueness constraint on the name refused the record.
    DuplicateKey,
    /// The storage failed for another reason.
    Failed,
}

/// How an attempt to update a record ended.
#[derive(Clone, Copy, Debug, PartialEq, Eq, Structural)]
pub enum UpdateOutcome {
    /// The storage carried the update out.
    Applied,
    /// The storage failed.
    Failed,
}

/// The user records, in the order in which they were inserted.
pub struct Users {
    list: Vec<User>,
}

impl View for Users {
    type V = Seq<UserView>;

    closed spec fn view(&self) -> Seq<UserView> {
        self.list.deep_view()
    }
}

impl Users {
    #[verifier::type_invariant]
    spec fn names_are_unique(&self) -> bool {
        unique_names(self.list.deep_view())
    }

    /// The empty collection.
    pub fn new() -> (users: Users)
        ensures
            users@ == Seq::<UserView>::empty(),
    {
        let users = Users { list: Vec::new() };
        assert(users.list.deep_view() =~= Seq::<UserView>::empty());
        users
    }

    /// The number of records.
    pub fn len(&self) -> (count: usize)
        ensures
            count == self@.len(),
            unique_names(self@),
    {
        proof {
            use_type_invariant(self);
        }
        self.list.len()
    }

    /// The record at place `at`, in insertion order.
    pub fn get(&self, at: usize) -> (user: Option<&User>)
        ensures
            match user {
                Some(user) => at < self@.len() && user@ == self@[at as int],
                None => at >= self@.len(),
            },
    {
        if at < self.list.len() {
            Some(&self.list[at])
        } else {
            None
        }
    }

    /// Where the record named `name` stands.
    fn index_of(&self, name: &str) -> (at: Option<usize>)
        ensures
            unique_names(self@),
            match at {
                Some(at) => has_user(self@, name@) && at == position(self@, name@),
                None => !has_user(self@, name@),
            },
    {
        proof {
            use_type_invariant(self);
        }
        let wanted = name.to_owned();
        let mut i: usize = 0;
        while i < self.list.len()
            invariant
                i <= self.list.len(),
                wanted@ == name@,
                unique_names(self@),
                forall|k: int| 0 <= k < i ==> (#[trigger] self@[k]).name != name@,
            decreases self.list.len() - i,
        {
            if self.list[i].name == wanted {
                assert(self@[i as int].name == name@);
                return Some(i);
            }
            i += 1;
        }
        None
    }

    /// Looks the record named `name` up.
    pub fn find_one(&self, name: &str) -> (found: Option<&User>)
        ensures
            found.is_some() == has_user(self@, name@),
            found matches Some(user) ==> find(self@, name@) == Some(user@),
    {
        match self.index_of(name) {
            Some(at) => Some(&self.list[at]),
            None => None,
        }
    }

    /// Stores `user` unless its name is taken. The collection itself never
    /// fails, so the outcome is `Inserted` or `DuplicateKey`.
    pub fn insert_one(&mut self, user: User) -> (outcome: InsertOutcome)
        ensures
            unique_names(final(self)@),
            has_user(old(self)@, user@.name) ==> outcome == InsertOutcome::DuplicateKey
                && final(self)@ == old(self)@,
            !has_user(old(self)@, user@.name) ==> outcome == InsertOutcome::Inserted
                && final(self)@ == old(self)@.push(user@),
    {
        match self.index_of(user.name.as_str()) {
            Some(_) => InsertOutcome::DuplicateKey,
            None => {
                let mut list: Vec<User> = Vec::new();
                std::mem::swap(&mut self.list, &mut list);
                list.push(user);
                assert(list.deep_view() =~= old(self)@.push(user@));
                self.list = list;
                InsertOutcome::Inserted
            },
        }
    }

    /// Appends `token` to the tokens of the record named `name`; without such
    /// a record nothing changes.
    pub fn push_token(&mut self, name: &str, token: Token)
        ensures
            unique_names(final(self)@),
            has_user(old(self)@, name@) ==> final(self)@ == with_token(
                old(self)@,
                position(old(self)@, name@),
                token@,
            ),
            !has_user(old(self)@, name@) ==> final(self)@ == old(self)@,
    {
        match self.index_of(name) {
            Some(at) => {
                let mut list: Vec<User> = Vec::new();
                std::mem::swap(&mut self.list, &mut list);
                list[at].tokens.push(token);
                assert(list[at as int].tokens.deep_view() =~= old(self)@[at as int].tokens.push(
                    token@,
                ));
                assert(list.deep_view() =~= with_token(old(self)@, at as int, token@));
                self.list = list;
            },
            None => {},
        }
    }

    /// Appends `recipe` to the recipes of the record named `name`; without
    /// such a record nothing changes.
    pub fn push_recipe(&mut self, name: &str, recipe: Recipe)
        ensures
            unique_names(final(self)@),
            has_user(old(self)@, name@) ==> final(self)@ == with_recipe(
                old(self)@,
                position(old(self)@, name@),
                recipe@,
            ),
            !has_user(old(self)@, name@) ==> final(self)@ == old(self)@,
    {
        match self.index_of(name) {
            Some(at) => {
                let mut list: Vec<User> = Vec::new();
                std::mem::swap(&mut self.list, &mut list);
                list[at].recipes.push(recipe);
                assert(list[at as int].recipes.deep_view() =~= old(self)@[at as int].recipes.push(
                    recipe@,
                ));
                assert(list.deep_view() =~= with_recipe(old(self)@, at as int, recipe@));
                self.list = list;
            },
            None => {},
        }
    }
}

} // verus!
