//! The user actor: the simplest entity, with no custom actions and no
//! dependencies. Its hooks are pure field updates, stated exactly by the
//! spec transitions of its [`ActorEntity`] implementation.

use vstd::prelude::*;

use crate::entity::ActorEntity;
use crate::model::user::{User, UserCreate, UserId, UserUpdate};

verus! {

/// Custom actions on users; none carry any behaviour yet, so the single
/// placeholder variant is handled as a no-op.
#[derive(Debug, Clone, PartialEq)]
pub enum UserAction {
    /// Stands in until users gain real custom actions.
    Noop,
}

/// Errors that can occur during user operations.
#[derive(Debug, Clone, PartialEq)]
pub enum UserError {
    /// The requested user was not found.
    NotFound(String),
    /// A user with the same unique identifier already exists.
    AlreadyExists(String),
    /// The user data provided is invalid.
    ValidationError(String),
    /// An underlying database error occurred.
    DatabaseError(String),
    /// An error occurred while communicating with the actor system.
    ActorCommunicationError(String),
}

impl From<String> for UserError {
    /// A bare message becomes a communication error.
    fn from(msg: String) -> (r: Self) {
        UserError::ActorCommunicationError(msg)
    }
}

impl vstd::std_specs::convert::FromSpecImpl<String> for UserError {
    open spec fn obeys_from_spec() -> bool {
        true
    }

    open spec fn from_spec(msg: String) -> Self {
        UserError::ActorCommunicationError(msg)
    }
}

impl ActorEntity for User {
    type Id = UserId;

    type Create = UserCreate;

    type Update = UserUpdate;

    type Action = UserAction;

    type ActionResult = ();

    type Context = ();

    type Error = UserError;

    open spec fn id_of_spec(n: u64) -> UserId {
        UserId(n)
    }

    proof fn lemma_id_of_injective(a: u64, b: u64) {
    }

    fn id_of(n: u64) -> (r: UserId) {
        UserId(n)
    }

    fn id_eq(a: &UserId, b: &UserId) -> (r: bool) {
        a.0 == b.0
    }

    fn entity_clone(&self) -> (r: Self) {
        User { id: self.id, name: self.name.clone(), email: self.email.clone() }
    }

    open spec fn construct_spec(id: UserId, params: UserCreate) -> Result<User, UserError> {
        Ok(User { id, name: params.name, email: params.email })
    }

    fn from_create_params(id: UserId, params: UserCreate) -> (r: Result<User, UserError>) {
        let UserCreate { name, email } = params;
        Ok(User { id, name, email })
    }

    open spec fn on_create_spec(pre: User, ctx: ()) -> Result<User, UserError> {
        Ok(pre)
    }

    fn on_create(&mut self, ctx: &()) -> (r: Result<(), UserError>) {
        Ok(())
    }

    open spec fn on_update_spec(pre: User, update: UserUpdate, ctx: ()) -> Result<
        User,
        UserError,
    > {
        Ok(
            User {
                id: pre.id,
                name: match update.name {
                    Some(name) => name,
                    None => pre.name,
                },
                email: match update.email {
                    Some(email) => email,
                    None => pre.email,
                },
            },
        )
    }

    fn on_update(&mut self, update: UserUpdate, ctx: &()) -> (r: Result<(), UserError>) {
        let UserUpdate { name, email } = update;
        if let Some(name) = name {
            self.name = name;
        }
        if let Some(email) = email {
            self.email = email;
        }
        Ok(())
    }

    open spec fn on_delete_spec(pre: User, ctx: ()) -> Result<(), UserError> {
        Ok(())
    }

    fn on_delete(&self, ctx: &()) -> (r: Result<(), UserError>) {
        Ok(())
    }

    open spec fn handle_action_spec(pre: User, action: UserAction, ctx: ()) -> Result<
        (User, ()),
        UserError,
    > {
        Ok((pre, ()))
    }

    fn handle_action(&mut self, action: UserAction, ctx: &()) -> (r: Result<(), UserError>) {
        Ok(())
    }
}

} // verus!
