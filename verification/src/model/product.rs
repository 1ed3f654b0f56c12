//! The product resource: the entity with its stock level, its typed id, and
//! its payload shapes. Prices are carried as whole cents.

use vstd::prelude::*;

verus! {

/// Type-safe identifier for products, derived from a worker's id counter.
#[derive(Debug, Clone, Copy, PartialEq, Eq, Structural, Hash)]
pub struct ProductId(pub u64);

impl From<u64> for ProductId {
    /// Wraps a raw counter value as a product id.
    fn from(id: u64) -> (r: Self) {
        ProductId(id)
    }
}

impl vstd::std_specs::convert::FromSpecImpl<u64> for ProductId {
    open spec fn obeys_from_spec() -> bool {
        true
    }

    open spec fn from_spec(id: u64) -> Self {
        ProductId(id)
    }
}

/// A product in the inventory, tracking its available stock.
#[derive(Debug, Clone, PartialEq)]
pub struct Product {
    pub id: ProductId,
    pub name: String,
    pub price_cents: u64,
    pub quantity: u32,
}

impl Product {
    /// Creates a product with the given id, name, unit price in cents and
    /// stock quantity.
    pub fn new(id: ProductId, name: String, price_cents: u64, quantity: u32) -> (r: Self)
        ensures
            r == (Product { id, name, price_cents, quantity }),
    {
        Product { id, name, price_cents, quantity }
    }
}

/// Payload for creating a new product.
#[derive(Debug, Clone, PartialEq)]
pub struct ProductCreate {
    pub name: String,
    pub price_cents: u64,
    pub quantity: u32,
}

/// Payload for updating a product; absent fields are left untouched.
#[derive(Debug, Clone, PartialEq)]
pub struct ProductUpdate {
    pub price_cents: Option<u64>,
    pub quantity: Option<u32>,
}

} // verus!
