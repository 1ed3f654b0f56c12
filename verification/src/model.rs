//! Pure data structures for the managed resources: the full entities, their
//! typed ids, and the payload shapes used to create and update them.

pub mod order;
pub mod product;
pub mod user;
