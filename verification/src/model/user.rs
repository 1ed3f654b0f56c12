//! The user resource: the entity, its typed id, and its payload shapes.

use vstd::prelude::*;

verus! {

/// Type-safe identifier for users, derived from a worker's id counter.
#[derive(Debug, Clone, Copy, PartialEq, Eq, Structural, Hash)]
pub struct UserId(pub u64);

impl From<u64> for UserId {
    /// Wraps a raw counter value as a user id.
    fn from(id: u64) -> (r: Self) {
        UserId(id)
    }
}

impl vstd::std_specs::convert::FromSpecImpl<u64> for UserId {
    open spec fn obeys_from_spec() -> bool {
        true
    }

    open spec fn from_spec(id: u64) -> Self {
        UserId(id)
    }
}

/// A registered user.
#[derive(Debug, Clone, PartialEq)]
pub struct User {
    pub id: UserId,
    pub name: String,
    pub email: String,
}

/// Payload for creating a new user.
#[derive(Debug, Clone, PartialEq)]
pub struct UserCreate {
    pub name: String,
    pub email: String,
}

/// Payload for updating an existing user; absent fields are left untouched.
#[derive(Debug, Clone, PartialEq)]
pub struct UserUpdate {
    pub name: Option<String>,
    pub email: Option<String>,
}

impl User {
    /// Creates a user whose id is the placeholder `UserId(0)`; the worker
    /// assigns the real id at creation time.
    pub fn new(name: String, email: String) -> (r: Self)
        ensures
            r == (User { id: UserId(0), name, email }),
    {
        User { id: UserId(0), name, email }
    }
}

impl UserCreate {
    /// The creation payload carrying a user's profile fields, as sent by a
    /// client that was handed a full `User` value.
    pub fn of_user(user: User) -> (r: Self)
        ensures
            r == (UserCreate { name: user.name, email: user.email }),
    {
        UserCreate { name: user.name, email: user.email }
    }
}

} // verus!
