use actor_recipe::actor::ResourceActor;
use actor_recipe::error::FrameworkError;
use actor_recipe::model::order::{Order, OrderCreate, OrderId};
use actor_recipe::model::product::{Product, ProductCreate, ProductId};
use actor_recipe::model::user::{User, UserCreate, UserId};
use actor_recipe::order_actor::OrderError;
use actor_recipe::product_actor::{ProductAction, ProductError};
use actor_recipe::user_actor::UserError;

/// The three workers of the order system, driven directly; the runtime
/// shell would feed them the same calls from its mailbox loops.
struct System {
    users: ResourceActor<User>,
    products: ResourceActor<Product>,
    orders: ResourceActor<Order>,
}

impl System {
    fn new() -> System {
        System {
            users: ResourceActor::new(),
            products: ResourceActor::new(),
            orders: ResourceActor::new(),
        }
    }

    fn check_stock(&mut self, id: ProductId) -> Result<u32, ProductError> {
        match self.products.handle_action(id, ProductAction::CheckStock, &()) {
            Ok(result) => Ok(result.stock_level().expect("CheckStock answers a stock level")),
            Err(FrameworkError::EntityError(e)) => Err(e),
            Err(_) => Err(ProductError::ActorCommunicationError("transport failure".to_string())),
        }
    }

    fn reserve_stock(&mut self, id: ProductId, quantity: u32) -> Result<(), ProductError> {
        match self.products.handle_action(id, ProductAction::ReserveStock(quantity), &()) {
            Ok(result) => {
                assert!(result.is_reservation());
                Ok(())
            }
            Err(FrameworkError::EntityError(e)) => Err(e),
            Err(FrameworkError::NotFound(_)) => {
                Err(ProductError::ActorCommunicationError("product not found".to_string()))
            }
            Err(_) => Err(ProductError::ActorCommunicationError("transport failure".to_string())),
        }
    }

    /// What the order worker's processing of one `Create` request does: the
    /// split create around the order's validation hook, which looks the
    /// user up and reserves stock on the other two workers.
    fn create_order(&mut self, params: OrderCreate) -> Result<OrderId, OrderError> {
        let user_id = params.user_id;
        let product_id = params.product_id;
        let quantity = params.quantity;
        let (oid, order) = match self.orders.begin_create(params) {
            Ok(built) => built,
            Err(FrameworkError::EntityError(e)) => return Err(e),
            Err(_) => {
                return Err(OrderError::ActorCommunicationError("transport failure".to_string()))
            }
        };
        let lookup: Result<Option<User>, UserError> = Ok(self.users.handle_get(user_id));
        let hook = match Order::validate_user(user_id, lookup) {
            Err(e) => Err(e),
            Ok(()) => Order::validate_reservation(self.reserve_stock(product_id, quantity)),
        };
        match self.orders.finish_create(oid, order, hook) {
            Ok(id) => Ok(id),
            Err(FrameworkError::EntityError(e)) => Err(e),
            Err(_) => Err(OrderError::ActorCommunicationError("transport failure".to_string())),
        }
    }
}

#[test]
fn test_full_order_system_integration() {
    let mut system = System::new();

    // Create a user
    let user = User::new("Alice".to_string(), "alice@example.com".to_string());
    let user_id = system
        .users
        .handle_create(UserCreate::of_user(user), &())
        .expect("Failed to create user");

    // Verify user was created
    let retrieved_user = system.users.handle_get(user_id).expect("User not found");
    assert_eq!(retrieved_user.name, "Alice");
    assert_eq!(retrieved_user.email, "alice@example.com");

    // Create a product with stock: 25.50 a unit, 100 in stock
    let product_id = system
        .products
        .handle_create(
            ProductCreate {
                name: "Super Widget".to_string(),
                price_cents: 2550,
                quantity: 100,
            },
            &(),
        )
        .expect("Failed to create product");

    // Verify initial stock level
    let initial_stock = system.check_stock(product_id).expect("Failed to check stock");
    assert_eq!(initial_stock, 100);

    // Create an order for 5 units (should reserve stock)
    let order =
        Order::new(OrderId(0), user_id, product_id, 5, 12750);
    let order_id = system.create_order(OrderCreate::of_order(order)).expect("Failed to create order");

    // Verify order was created with correct details
    let retrieved_order = system.orders.handle_get(order_id).expect("Order not found");
    assert_eq!(retrieved_order.user_id, user_id);
    assert_eq!(retrieved_order.product_id, product_id);
    assert_eq!(retrieved_order.quantity, 5);
    assert_eq!(retrieved_order.total_cents, 12750);

    // Verify stock was decremented
    let final_stock = system.check_stock(product_id).expect("Failed to check stock");
    assert_eq!(final_stock, 95, "Stock should be decremented by order quantity");

    // Test insufficient stock scenario
    let large_order = Order::new(OrderId(0), user_id, product_id, 200, 510000);
    let result = system.create_order(OrderCreate::of_order(large_order));
    assert!(result.is_err(), "Should fail when stock is insufficient");
    match result {
        Err(OrderError::ProductService(ProductError::InsufficientStock {
            requested,
            available,
        })) => {
            assert_eq!(requested, 200);
            assert_eq!(available, 95);
        }
        other => panic!("Expected an insufficient-stock failure, got {:?}", other),
    }

    // Verify stock wasn't changed after failed order, and the failed order
    // was never stored
    let stock_after_failure = system.check_stock(product_id).expect("Failed to check stock");
    assert_eq!(stock_after_failure, 95, "Stock should not change on failed order");
    assert!(system.orders.handle_get(OrderId(2)).is_none());
}

#[test]
fn test_concurrent_orders() {
    let mut system = System::new();

    // Create a user
    let user = User::new("Bob".to_string(), "bob@example.com".to_string());
    let user_id = system.users.handle_create(UserCreate::of_user(user), &()).unwrap();

    // Create a product with limited stock
    let product_id = system
        .products
        .handle_create(
            ProductCreate { name: "Limited Widget".to_string(), price_cents: 1000, quantity: 20 },
            &(),
        )
        .unwrap();

    // Ten concurrent orders of 2 units race to enqueue; the worker
    // serializes their effects, so we drive them in one arrival order here.
    let mut successful = 0;
    let mut failed = 0;
    for _i in 0..10 {
        let order = Order::new(OrderId(0), user_id, product_id, 2, 2000);
        match system.create_order(OrderCreate::of_order(order)) {
            Ok(_) => successful += 1,
            Err(_) => failed += 1,
        }
    }

    // Exactly 10 orders should succeed (20 stock / 2 per order)
    assert_eq!(successful, 10, "Expected exactly 10 successful orders");
    assert_eq!(failed, 0, "Expected no failures with sufficient stock");

    // Verify final stock is zero
    let final_stock = system.check_stock(product_id).unwrap();
    assert_eq!(final_stock, 0, "All stock should be consumed");

    // One more order must fail and leave the stock at zero, never negative
    let extra = Order::new(OrderId(0), user_id, product_id, 2, 2000);
    assert!(system.create_order(OrderCreate::of_order(extra)).is_err());
    assert_eq!(system.check_stock(product_id).unwrap(), 0);
}

#[test]
fn test_invalid_user_aborts_order() {
    let mut system = System::new();
    let product_id = system
        .products
        .handle_create(
            ProductCreate { name: "Widget".to_string(), price_cents: 500, quantity: 3 },
            &(),
        )
        .unwrap();

    // No user 9 exists: the order is rejected and no stock is reserved.
    let order = Order::new(OrderId(0), UserId(9), product_id, 1, 500);
    let result = system.create_order(OrderCreate::of_order(order));
    assert_eq!(result, Err(OrderError::InvalidUser(UserId(9))));
    assert_eq!(system.check_stock(product_id).unwrap(), 3);
    // Nothing was stored for the aborted order, but its id is consumed.
    assert!(system.orders.handle_get(OrderId(1)).is_none());
    let ok_user = system
        .users
        .handle_create(
            UserCreate { name: "Cleo".to_string(), email: "c@example.com".to_string() },
            &(),
        )
        .unwrap();
    let order2 = Order::new(OrderId(0), ok_user, product_id, 1, 500);
    let id2 = system.create_order(OrderCreate::of_order(order2)).unwrap();
    assert_eq!(id2, OrderId(2));
}
