//! The use cases of the service: sign-up, sign-in, creating a recipe and
//! listing recipes.
//!
//! Each use case comes in two forms. Free functions make its decisions from
//! plain values: what was found in the storage, how the storage answered.
//! They serve a caller that keeps the records in a storage of its own. The
//! methods of [`Database`] run the same decisions against a collection that
//! the database holds itself, and say in their contracts how it changes.

pub mod recipes;
pub mod signin;
pub mod signup;

use vstd::prelude::*;

use crate::model::UserView;
use crate::users::{unique_names, Users};

verus! {

/// The user records of the service.
pub struct Database {
    users: Users,
}

impl View for Database {
    type V = Seq<UserView>;

    closed spec fn view(&self) -> Seq<UserView> {
        self.users@
    }
}

impl Database {
    /// A database without any user.
    pub fn new() -> (database: Database)
        ensures
            database@ == Seq::<UserView>::empty(),
    {
        Database { users: Users::new() }
    }

    /// The collection of user records.
    pub fn users(&self) -> (users: &Users)
        ensures
            users@ == self@,
            unique_names(self@),
    {
        // Counting the records brings along that their names are unique.
        let _ = self.users.len();
        &self.users
    }
}

} // verus!
