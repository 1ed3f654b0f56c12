//! The order actor: the one entity whose creation is validated against
//! other workers. The validation decisions — does the user exist, did the
//! stock reservation go through — are plain functions here, verified for
//! every possible outcome of those lookups; the surrounding message round
//! trips happen in the unverified runtime shell, which feeds the outcomes
//! in.

use vstd::prelude::*;

use crate::entity::ActorEntity;
use crate::model::order::{Order, OrderCreate, OrderId, OrderStatus};
use crate::model::user::{User, UserId};
use crate::product_actor::ProductError;
use crate::user_actor::UserError;

verus! {

/// Errors that can occur during order operations.
#[derive(Debug, Clone, PartialEq)]
pub enum OrderError {
    /// The requested order was not found.
    NotFound(String),
    /// The product specified in the order does not exist.
    InvalidProduct(String),
    /// The user specified in the order does not exist.
    InvalidUser(UserId),
    /// There is insufficient stock to fulfill the order.
    InsufficientStock(String),
    /// The order data provided is invalid.
    ValidationError(String),
    /// A failure reported by the user service.
    UserService(UserError),
    /// A failure reported by the product service.
    ProductService(ProductError),
    /// An underlying database error occurred.
    DatabaseError(String),
    /// An error occurred while communicating with the actor system.
    ActorCommunicationError(String),
}

impl From<String> for OrderError {
    /// A bare message becomes a communication error.
    fn from(msg: String) -> (r: Self) {
        OrderError::ActorCommunicationError(msg)
    }
}

impl vstd::std_specs::convert::FromSpecImpl<String> for OrderError {
    open spec fn obeys_from_spec() -> bool {
        true
    }

    open spec fn from_spec(msg: String) -> Self {
        OrderError::ActorCommunicationError(msg)
    }
}

impl From<UserError> for OrderError {
    /// A user-service failure, carried through unchanged.
    fn from(e: UserError) -> (r: Self) {
        OrderError::UserService(e)
    }
}

impl vstd::std_specs::convert::FromSpecImpl<UserError> for OrderError {
    open spec fn obeys_from_spec() -> bool {
        true
    }

    open spec fn from_spec(e: UserError) -> Self {
        OrderError::UserService(e)
    }
}

impl From<ProductError> for OrderError {
    /// A product-service failure, carried through unchanged.
    fn from(e: ProductError) -> (r: Self) {
        OrderError::ProductService(e)
    }
}

impl vstd::std_specs::convert::FromSpecImpl<ProductError> for OrderError {
    open spec fn obeys_from_spec() -> bool {
        true
    }

    open spec fn from_spec(e: ProductError) -> Self {
        OrderError::ProductService(e)
    }
}

impl Order {
    /// First validation step of an order's creation: what the user lookup
    /// decided. A lookup failure is reported as a user-service error, an
    /// absent user rejects the order as invalid, a present user passes.
    pub fn validate_user(user_id: UserId, lookup: Result<Option<User>, UserError>) -> (r: Result<
        (),
        OrderError,
    >)
        ensures
            match lookup {
                Err(e) => r == Err::<(), OrderError>(OrderError::UserService(e)),
                Ok(None) => r == Err::<(), OrderError>(OrderError::InvalidUser(user_id)),
                Ok(Some(user)) => r == Ok::<(), OrderError>(()),
            },
    {
        match lookup {
            Err(e) => Err(OrderError::UserService(e)),
            Ok(None) => Err(OrderError::InvalidUser(user_id)),
            Ok(Some(_)) => Ok(()),
        }
    }

    /// Second validation step of an order's creation: what the stock
    /// reservation decided. A product-side failure is reported as a
    /// product-service error and aborts the order; a successful reservation
    /// passes.
    pub fn validate_reservation(reservation: Result<(), ProductError>) -> (r: Result<
        (),
        OrderError,
    >)
        ensures
            match reservation {
                Err(e) => r == Err::<(), OrderError>(OrderError::ProductService(e)),
                Ok(u) => r == Ok::<(), OrderError>(()),
            },
    {
        match reservation {
            Err(e) => Err(OrderError::ProductService(e)),
            Ok(()) => Ok(()),
        }
    }
}

impl ActorEntity for Order {
    type Id = OrderId;

    type Create = OrderCreate;

    type Update = ();

    type Action = ();

    type ActionResult = ();

    type Context = ();

    type Error = OrderError;

    open spec fn id_of_spec(n: u64) -> OrderId {
        OrderId(n)
    }

    proof fn lemma_id_of_injective(a: u64, b: u64) {
    }

    fn id_of(n: u64) -> (r: OrderId) {
        OrderId(n)
    }

    fn id_eq(a: &OrderId, b: &OrderId) -> (r: bool) {
        a.0 == b.0
    }

    fn entity_clone(&self) -> (r: Self) {
        Order {
            id: self.id,
            user_id: self.user_id,
            product_id: self.product_id,
            quantity: self.quantity,
            total_cents: self.total_cents,
            status: self.status,
        }
    }

    open spec fn construct_spec(id: OrderId, params: OrderCreate) -> Result<Order, OrderError> {
        Ok(
            Order {
                id,
                user_id: params.user_id,
                product_id: params.product_id,
                quantity: params.quantity,
                total_cents: params.total_cents,
                status: OrderStatus::Created,
            },
        )
    }

    fn from_create_params(id: OrderId, params: OrderCreate) -> (r: Result<Order, OrderError>) {
        let OrderCreate { user_id, product_id, quantity, total_cents } = params;
        Ok(Order::new(id, user_id, product_id, quantity, total_cents))
    }

    open spec fn on_create_spec(pre: Order, ctx: ()) -> Result<Order, OrderError> {
        Ok(pre)
    }

    fn on_create(&mut self, ctx: &()) -> (r: Result<(), OrderError>) {
        Ok(())
    }

    open spec fn on_update_spec(pre: Order, update: (), ctx: ()) -> Result<Order, OrderError> {
        Ok(pre)
    }

    fn on_update(&mut self, update: (), ctx: &()) -> (r: Result<(), OrderError>) {
        Ok(())
    }

    open spec fn on_delete_spec(pre: Order, ctx: ()) -> Result<(), OrderError> {
        Ok(())
    }

    fn on_delete(&self, ctx: &()) -> (r: Result<(), OrderError>) {
        Ok(())
    }

    open spec fn handle_action_spec(pre: Order, action: (), ctx: ()) -> Result<
        (Order, ()),
        OrderError,
    > {
        Ok((pre, ()))
    }

    fn handle_action(&mut self, action: (), ctx: &()) -> (r: Result<(), OrderError>) {
        Ok(())
    }
}

} // verus!
