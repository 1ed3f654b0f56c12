//! The product actor: stock management. Its custom actions check and
//! reserve stock; a reservation that exceeds the available quantity fails
//! and leaves the stock untouched, so stock can never go negative.

use vstd::prelude::*;

use crate::entity::ActorEntity;
use crate::model::product::{Product, ProductCreate, ProductId, ProductUpdate};

verus! {

/// Custom actions on products.
#[derive(Debug, Clone, PartialEq)]
pub enum ProductAction {
    /// Reads the current stock level without modifying it.
    CheckStock,
    /// Reserves the given number of units; fails if fewer are available.
    ReserveStock(u32),
}

/// Results of product actions; variants match the actions one to one.
#[derive(Debug, Clone, PartialEq)]
pub enum ProductActionResult {
    /// The current stock level.
    CheckStock(u32),
    /// The reservation went through.
    ReserveStock,
}

/// Errors that can occur during product operations.
#[derive(Debug, Clone, PartialEq)]
pub enum ProductError {
    /// The requested product was not found.
    NotFound(String),
    /// The requested quantity exceeds the available stock.
    InsufficientStock { requested: u32, available: u32 },
    /// The provided quantity is invalid.
    InvalidQuantity(u32),
    /// An underlying database error occurred.
    DatabaseError(String),
    /// An error occurred while communicating with the actor system.
    ActorCommunicationError(String),
}

impl From<String> for ProductError {
    /// A bare message becomes a communication error.
    fn from(msg: String) -> (r: Self) {
        ProductError::ActorCommunicationError(msg)
    }
}

impl vstd::std_specs::convert::FromSpecImpl<String> for ProductError {
    open spec fn obeys_from_spec() -> bool {
        true
    }

    open spec fn from_spec(msg: String) -> Self {
        ProductError::ActorCommunicationError(msg)
    }
}

impl ProductActionResult {
    /// The stock level carried by a check-stock answer, or nothing if this
    /// answers a different action; lets a client read the level without
    /// matching on variants it never requested.
    pub fn stock_level(&self) -> (r: Option<u32>)
        ensures
            match *self {
                ProductActionResult::CheckStock(level) => r == Some(level),
                ProductActionResult::ReserveStock => r is None,
            },
    {
        match self {
            ProductActionResult::CheckStock(level) => Some(*level),
            ProductActionResult::ReserveStock => None,
        }
    }

    /// Whether this answers a reserve-stock action.
    pub fn is_reservation(&self) -> (r: bool)
        ensures
            r == (*self is ReserveStock),
    {
        match self {
            ProductActionResult::ReserveStock => true,
            ProductActionResult::CheckStock(_) => false,
        }
    }
}

impl ActorEntity for Product {
    type Id = ProductId;

    type Create = ProductCreate;

    type Update = ProductUpdate;

    type Action = ProductAction;

    type ActionResult = ProductActionResult;

    type Context = ();

    type Error = ProductError;

    open spec fn id_of_spec(n: u64) -> ProductId {
        ProductId(n)
    }

    proof fn lemma_id_of_injective(a: u64, b: u64) {
    }

    fn id_of(n: u64) -> (r: ProductId) {
        ProductId(n)
    }

    fn id_eq(a: &ProductId, b: &ProductId) -> (r: bool) {
        a.0 == b.0
    }

    fn entity_clone(&self) -> (r: Self) {
        Product {
            id: self.id,
            name: self.name.clone(),
            price_cents: self.price_cents,
            quantity: self.quantity,
        }
    }

    open spec fn construct_spec(id: ProductId, params: ProductCreate) -> Result<
        Product,
        ProductError,
    > {
        Ok(
            Product {
                id,
                name: params.name,
                price_cents: params.price_cents,
                quantity: params.quantity,
            },
        )
    }

    fn from_create_params(id: ProductId, params: ProductCreate) -> (r: Result<
        Product,
        ProductError,
    >) {
        let ProductCreate { name, price_cents, quantity } = params;
        Ok(Product { id, name, price_cents, quantity })
    }

    open spec fn on_create_spec(pre: Product, ctx: ()) -> Result<Product, ProductError> {
        Ok(pre)
    }

    fn on_create(&mut self, ctx: &()) -> (r: Result<(), ProductError>) {
        Ok(())
    }

    open spec fn on_update_spec(pre: Product, update: ProductUpdate, ctx: ()) -> Result<
        Product,
        ProductError,
    > {
        Ok(
            Product {
                id: pre.id,
                name: pre.name,
                price_cents: match update.price_cents {
                    Some(price_cents) => price_cents,
                    None => pre.price_cents,
                },
                quantity: match update.quantity {
                    Some(quantity) => quantity,
                    None => pre.quantity,
                },
            },
        )
    }

    fn on_update(&mut self, update: ProductUpdate, ctx: &()) -> (r: Result<(), ProductError>) {
        let ProductUpdate { price_cents, quantity } = update;
        if let Some(price_cents) = price_cents {
            self.price_cents = price_cents;
        }
        if let Some(quantity) = quantity {
            self.quantity = quantity;
        }
        Ok(())
    }

    open spec fn on_delete_spec(pre: Product, ctx: ()) -> Result<(), ProductError> {
        Ok(())
    }

    fn on_delete(&self, ctx: &()) -> (r: Result<(), ProductError>) {
        Ok(())
    }

    open spec fn handle_action_spec(pre: Product, action: ProductAction, ctx: ()) -> Result<
        (Product, ProductActionResult),
        ProductError,
    > {
        match action {
            ProductAction::CheckStock => Ok((pre, ProductActionResult::CheckStock(pre.quantity))),
            ProductAction::ReserveStock(requested) => if pre.quantity >= requested {
                Ok(
                    (
                        Product {
                            id: pre.id,
                            name: pre.name,
                            price_cents: pre.price_cents,
                            quantity: (pre.quantity - requested) as u32,
                        },
                        ProductActionResult::ReserveStock,
                    ),
                )
            } else {
                Err(ProductError::InsufficientStock { requested, available: pre.quantity })
            },
        }
    }

    fn handle_action(&mut self, action: ProductAction, ctx: &()) -> (r: Result<
        ProductActionResult,
        ProductError,
    >) {
        match action {
            ProductAction::CheckStock => Ok(ProductActionResult::CheckStock(self.quantity)),
            ProductAction::ReserveStock(requested) => {
                if self.quantity >= requested {
                    self.quantity = self.quantity - requested;
                    Ok(ProductActionResult::ReserveStock)
                } else {
                    Err(ProductError::InsufficientStock { requested, available: self.quantity })
                }
            },
        }
    }
}

/// The product state after `k` one-unit reservations applied one after
/// another — the serialized effect of `k` concurrent reserve requests, in
/// whatever order the mailbox delivered them. A failed reservation leaves
/// the state unchanged, exactly as a failed action does in the worker.
pub open spec fn after_unit_reserves(p: Product, k: nat) -> Product
    decreases k,
{
    if k == 0 {
        p
    } else {
        let prev = after_unit_reserves(p, (k - 1) as nat);
        match Product::handle_action_spec(prev, ProductAction::ReserveStock(1), ()) {
            Ok((post, res)) => post,
            Err(e) => prev,
        }
    }
}

/// How many of `k` serialized one-unit reservations succeed.
pub open spec fn successful_unit_reserves(p: Product, k: nat) -> nat
    decreases k,
{
    if k == 0 {
        0
    } else {
        let prev = after_unit_reserves(p, (k - 1) as nat);
        successful_unit_reserves(p, (k - 1) as nat) + (
        if Product::handle_action_spec(prev, ProductAction::ReserveStock(1), ()) is Ok {
            1nat
        } else {
            0nat
        })
    }
}

/// Serialized reservations never oversell: after any number of one-unit
/// reservations, in any delivery order, the stock is the initial quantity
/// minus the number of reservations, floored at zero — never negative — and
/// exactly as many reservations succeed as there were units in stock. The
/// rest of the product is untouched.
pub proof fn lemma_serialized_unit_reserves(p: Product, k: nat)
    ensures
        after_unit_reserves(p, k).quantity as int == (if k <= p.quantity as int {
            p.quantity - k
        } else {
            0int
        }),
        successful_unit_reserves(p, k) == (if k <= p.quantity as int {
            k as int
        } else {
            p.quantity as int
        }),
        after_unit_reserves(p, k).id == p.id,
        after_unit_reserves(p, k).name == p.name,
        after_unit_reserves(p, k).price_cents == p.price_cents,
    decreases k,
{
    if k == 0 {
    } else {
        lemma_serialized_unit_reserves(p, (k - 1) as nat);
    }
}

} // verus!
