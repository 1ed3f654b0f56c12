//! The framework-level error taxonomy: transport failures, lookup misses,
//! and opaquely wrapped entity-level failures.

use vstd::prelude::*;

verus! {

/// Errors produced by the actor runtime itself, as seen by a caller awaiting
/// a reply. `I` is the entity's id type, `E` the entity's own error type;
/// the runtime wraps `E` without ever inspecting it.
#[derive(Debug, Clone, PartialEq)]
pub enum FrameworkError<I, E> {
    /// The mailbox was closed before the request could be enqueued.
    ActorClosed,
    /// The reply slot was dropped before a reply was sent.
    ActorDropped,
    /// The requested id is not present in the store.
    NotFound(I),
    /// A lifecycle hook or action handler failed; its error is carried
    /// through unchanged.
    EntityError(E),
}

} // verus!
