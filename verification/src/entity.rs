//! The entity contract: everything a worker needs to drive create / get /
//! update / delete / action against a managed type without knowing its
//! domain semantics.
//!
//! Each hook comes in two parts: a `spec` transition function that says, as a
//! mathematical function, what the hook decides and how it transforms the
//! entity, and an executable method whose contract ties it to that
//! transition. A hook that fails must leave the entity exactly as it was, so
//! no partial mutation can ever leak into the store.

use vstd::prelude::*;

verus! {

/// The capability set a managed entity type must satisfy to be driven by a
/// [`ResourceActor`](crate::actor::ResourceActor).
///
/// Associated shapes: an id, a creation payload, an update payload, a closed
/// set of custom actions with their result type, an injected dependency
/// bundle (`Context`, unit if none), and a domain error type that the
/// framework wraps opaquely.
pub trait ActorEntity: Sized {
    /// The unique identifier for this entity.
    type Id: Copy;
    /// The payload required to construct a new instance.
    type Create;
    /// The payload for a partial in-place mutation.
    type Update;
    /// Domain-specific operations beyond create / get / update / delete.
    type Action;
    /// The outcomes of those operations.
    type ActionResult;
    /// The dependency bundle handed to every hook for the worker's lifetime.
    type Context;
    /// The error type for any failure from any hook.
    type Error;

    /// The id issued for counter value `n` of one worker's id generator.
    spec fn id_of_spec(n: u64) -> Self::Id;

    /// Distinct counter values yield distinct ids; this is what makes every
    /// id issued by a worker fresh.
    proof fn lemma_id_of_injective(a: u64, b: u64)
        ensures
            Self::id_of_spec(a) == Self::id_of_spec(b) ==> a == b,
    ;

    /// Turns a counter value into an id.
    fn id_of(n: u64) -> (r: Self::Id)
        ensures
            r == Self::id_of_spec(n),
    ;

    /// Decides equality of two ids.
    fn id_eq(a: &Self::Id, b: &Self::Id) -> (r: bool)
        ensures
            r == (a == b),
    ;

    /// Produces a copy indistinguishable from the original; this is what a
    /// `Get` reply hands out while the worker keeps ownership of the stored
    /// value.
    fn entity_clone(&self) -> (r: Self)
        ensures
            r == *self,
    ;

    /// What constructing an entity from an id and a creation payload yields.
    spec fn construct_spec(id: Self::Id, params: Self::Create) -> Result<Self, Self::Error>;

    /// Constructs the full entity from the id and the creation payload,
    /// before the entity exists in any store.
    fn from_create_params(id: Self::Id, params: Self::Create) -> (r: Result<Self, Self::Error>)
        ensures
            r == Self::construct_spec(id, params),
    ;

    /// How the post-construction hook transforms a freshly built entity, or
    /// why it rejects it.
    spec fn on_create_spec(pre: Self, ctx: Self::Context) -> Result<Self, Self::Error>;

    /// Runs after construction and before insertion into the store; failure
    /// aborts the create and the entity is never stored.
    fn on_create(&mut self, ctx: &Self::Context) -> (r: Result<(), Self::Error>)
        ensures
            match Self::on_create_spec(*old(self), *ctx) {
                Ok(post) => r == Ok::<(), Self::Error>(()) && *final(self) == post,
                Err(e) => r == Err::<(), Self::Error>(e) && *final(self) == *old(self),
            },
    ;

    /// How an update payload transforms the entity, or why it is rejected.
    spec fn on_update_spec(pre: Self, update: Self::Update, ctx: Self::Context) -> Result<
        Self,
        Self::Error,
    >;

    /// Mutates the entity in place; on failure the entity is exactly as it
    /// was, so callers of the worker never observe a partial write.
    fn on_update(&mut self, update: Self::Update, ctx: &Self::Context) -> (r: Result<
        (),
        Self::Error,
    >)
        ensures
            match Self::on_update_spec(*old(self), update, *ctx) {
                Ok(post) => r == Ok::<(), Self::Error>(()) && *final(self) == post,
                Err(e) => r == Err::<(), Self::Error>(e) && *final(self) == *old(self),
            },
    ;

    /// Whether the entity consents to its removal.
    spec fn on_delete_spec(pre: Self, ctx: Self::Context) -> Result<(), Self::Error>;

    /// Runs before removal from the store; failure aborts the delete.
    fn on_delete(&self, ctx: &Self::Context) -> (r: Result<(), Self::Error>)
        ensures
            r == Self::on_delete_spec(*self, *ctx),
    ;

    /// How a custom action transforms the entity and what it answers, or why
    /// it fails.
    spec fn handle_action_spec(pre: Self, action: Self::Action, ctx: Self::Context) -> Result<
        (Self, Self::ActionResult),
        Self::Error,
    >;

    /// Runs a custom action with mutable access to the stored entity; a
    /// failed action leaves the entity exactly as it was.
    fn handle_action(&mut self, action: Self::Action, ctx: &Self::Context) -> (r: Result<
        Self::ActionResult,
        Self::Error,
    >)
        ensures
            match Self::handle_action_spec(*old(self), action, *ctx) {
                Ok((post, res)) => r == Ok::<Self::ActionResult, Self::Error>(res) && *final(self)
                    == post,
                Err(e) => r == Err::<Self::ActionResult, Self::Error>(e) && *final(self) == *old(
                    self,
                ),
            },
    ;
}

} // verus!
