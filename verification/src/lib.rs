//! A resource-oriented actor core: a generic entity store driven by a
//! CRUD-plus-action protocol, with lifecycle hooks specified per entity,
//! and a scripted stand-in for testing client-side logic.
//!
//! The store, the per-request transitions, the hook contracts and the
//! expectation queue of the test double are verified here. The surrounding
//! mailbox plumbing (channels, tasks) lives outside this crate's proofs.

pub mod actor;
pub mod entity;
pub mod error;
pub mod mock;
pub mod model;
pub mod order_actor;
pub mod product_actor;
pub mod user_actor;

pub use entity::ActorEntity;
pub use error::FrameworkError;
