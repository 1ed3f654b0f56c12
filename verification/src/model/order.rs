//! The order resource: the entity tying a user to a product, its typed id,
//! and its creation payload. Totals are carried as whole cents.

use vstd::prelude::*;

use crate::model::product::ProductId;
use crate::model::user::UserId;

verus! {

/// Type-safe identifier for orders, derived from a worker's id counter.
#[derive(Debug, Clone, Copy, PartialEq, Eq, Structural, Hash)]
pub struct OrderId(pub u64);

impl From<u64> for OrderId {
    /// Wraps a raw counter value as an order id.
    fn from(id: u64) -> (r: Self) {
        OrderId(id)
    }
}

impl vstd::std_specs::convert::FromSpecImpl<u64> for OrderId {
    open spec fn obeys_from_spec() -> bool {
        true
    }

    open spec fn from_spec(id: u64) -> Self {
        OrderId(id)
    }
}

/// Where an order stands in its lifetime; a freshly constructed order is
/// always `Created`.
#[derive(Debug, Clone, Copy, PartialEq, Eq, Structural)]
pub enum OrderStatus {
    Created,
}

/// A customer order referencing the user who placed it and the product
/// ordered.
#[derive(Debug, Clone, PartialEq)]
pub struct Order {
    pub id: OrderId,
    pub user_id: UserId,
    pub product_id: ProductId,
    pub quantity: u32,
    pub total_cents: u64,
    pub status: OrderStatus,
}

impl Order {
    /// Creates an order in the `Created` status.
    pub fn new(
        id: OrderId,
        user_id: UserId,
        product_id: ProductId,
        quantity: u32,
        total_cents: u64,
    ) -> (r: Self)
        ensures
            r == (Order {
                id,
                user_id,
                product_id,
                quantity,
                total_cents,
                status: OrderStatus::Created,
            }),
    {
        Order { id, user_id, product_id, quantity, total_cents, status: OrderStatus::Created }
    }
}

/// Payload for creating a new order.
#[derive(Debug, Clone, PartialEq)]
pub struct OrderCreate {
    pub user_id: UserId,
    pub product_id: ProductId,
    pub quantity: u32,
    pub total_cents: u64,
}

impl OrderCreate {
    /// The creation payload carrying an order's fields, as sent by a client
    /// that was handed a full `Order` value.
    pub fn of_order(order: Order) -> (r: Self)
        ensures
            r == (OrderCreate {
                user_id: order.user_id,
                product_id: order.product_id,
                quantity: order.quantity,
                total_cents: order.total_cents,
            }),
    {
        OrderCreate {
            user_id: order.user_id,
            product_id: order.product_id,
            quantity: order.quantity,
            total_cents: order.total_cents,
        }
    }
}

} // verus!
