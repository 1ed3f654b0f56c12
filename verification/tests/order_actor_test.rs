use actor_recipe::actor::ResourceActor;
use actor_recipe::mock::{Expectation, MockScript, RequestKind};
use actor_recipe::model::order::{Order, OrderCreate, OrderId, OrderStatus};
use actor_recipe::model::product::{Product, ProductId};
use actor_recipe::model::user::{User, UserId};
use actor_recipe::order_actor::OrderError;
use actor_recipe::product_actor::ProductActionResult;
use actor_recipe::user_actor::UserError;

/// Runs the order-creation protocol against scripted doubles for the user
/// and product services: look the user up, reserve stock, then decide.
fn order_hook_against_mocks(
    user_mock: &mut MockScript<User>,
    product_mock: &mut MockScript<Product>,
    user_id: UserId,
    product_id: ProductId,
) -> Result<(), OrderError> {
    let lookup: Result<Option<User>, UserError> =
        match user_mock.respond(RequestKind::Get).expect("Expected Get request") {
            Expectation::Get { id, response } => {
                assert_eq!(id, user_id);
                response.map_err(|_| {
                    UserError::ActorCommunicationError("transport failure".to_string())
                })
            }
            _ => panic!("Expected Get request"),
        };
    Order::validate_user(user_id, lookup)?;
    let reservation = match product_mock
        .respond(RequestKind::Action)
        .expect("Expected Action request")
    {
        Expectation::Action { id, response } => {
            assert_eq!(id, product_id);
            match response {
                Ok(result) => {
                    assert!(result.is_reservation(), "Expected ReserveStock action");
                    Ok(())
                }
                Err(_) => Err(actor_recipe::product_actor::ProductError::ActorCommunicationError(
                    "transport failure".to_string(),
                )),
            }
        }
        _ => panic!("Expected Action request"),
    };
    Order::validate_reservation(reservation)
}

#[test]
fn test_order_client_coordination() {
    // All dependencies scripted: the user exists, the reservation succeeds,
    // and the order service answers order 1.
    let user_mock: MockScript<User> = MockScript::new();
    let mut user_mock = user_mock.expect_get(UserId(1)).return_ok(Some(User {
        id: UserId(1),
        name: "Test".to_string(),
        email: "test@example.com".to_string(),
    }));

    let product_mock: MockScript<Product> = MockScript::new();
    let mut product_mock = product_mock
        .expect_action(ProductId(1))
        .return_ok(ProductActionResult::ReserveStock);

    let order_mock: MockScript<Order> = MockScript::new();
    let mut order_mock = order_mock.expect_create().return_ok(OrderId(1));

    // The coordination decisions, with the scripted outcomes fed in.
    let hook = order_hook_against_mocks(&mut user_mock, &mut product_mock, UserId(1), ProductId(1));
    assert_eq!(hook, Ok(()));
    let created = match order_mock.respond(RequestKind::Create).unwrap() {
        Expectation::Create { response } => response,
        _ => panic!("Expected Create request"),
    };
    assert_eq!(created, Ok(OrderId(1)));

    assert!(user_mock.verify() && product_mock.verify() && order_mock.verify());
}

#[test]
fn test_order_actor_with_mocked_dependencies() {
    // Real order worker, scripted user and product services.
    let user_mock: MockScript<User> = MockScript::new();
    let mut user_mock = user_mock.expect_get(UserId(1)).return_ok(Some(User {
        id: UserId(1),
        name: "Alice".to_string(),
        email: "alice@example.com".to_string(),
    }));

    let product_mock: MockScript<Product> = MockScript::new();
    let mut product_mock = product_mock
        .expect_action(ProductId(1))
        .return_ok(ProductActionResult::ReserveStock);

    let mut order_actor: ResourceActor<Order> = ResourceActor::new();

    // Drive the order worker's create through its split hook.
    let params = OrderCreate {
        user_id: UserId(1),
        product_id: ProductId(1),
        quantity: 3,
        total_cents: 7500,
    };
    let (oid, order) = order_actor.begin_create(params).expect("construction cannot fail");
    let hook = order_hook_against_mocks(&mut user_mock, &mut product_mock, UserId(1), ProductId(1));
    let result = order_actor.finish_create(oid, order, hook);
    assert!(result.is_ok());
    let order_id = result.unwrap();

    // Verify we can retrieve the order from the real worker
    let retrieved_order = order_actor.handle_get(order_id);
    assert!(retrieved_order.is_some());
    let order = retrieved_order.unwrap();
    assert_eq!(order.user_id, UserId(1));
    assert_eq!(order.product_id, ProductId(1));
    assert_eq!(order.quantity, 3);
    assert_eq!(order.total_cents, 7500);
    assert_eq!(order.status, OrderStatus::Created);

    // Verify mocks were fully consumed
    assert!(user_mock.verify());
    assert!(product_mock.verify());
}

#[test]
fn test_failed_hook_aborts_order_create() {
    // The user lookup comes back empty: the split create must store
    // nothing, and the consumed id is never reused.
    let mut order_actor: ResourceActor<Order> = ResourceActor::new();
    let params = OrderCreate {
        user_id: UserId(5),
        product_id: ProductId(1),
        quantity: 1,
        total_cents: 100,
    };
    let (oid, order) = order_actor.begin_create(params).unwrap();
    assert_eq!(oid, OrderId(1));
    let lookup: Result<Option<User>, UserError> = Ok(None);
    let hook = Order::validate_user(UserId(5), lookup);
    assert_eq!(hook, Err(OrderError::InvalidUser(UserId(5))));
    let result = order_actor.finish_create(oid, order, hook);
    assert!(result.is_err());
    assert!(order_actor.handle_get(OrderId(1)).is_none());

    // The next create gets a fresh id.
    let params2 = OrderCreate {
        user_id: UserId(5),
        product_id: ProductId(1),
        quantity: 1,
        total_cents: 100,
    };
    let (oid2, order2) = order_actor.begin_create(params2).unwrap();
    assert_eq!(oid2, OrderId(2));
    let done = order_actor.finish_create(oid2, order2, Ok(()));
    assert_eq!(done, Ok(OrderId(2)));
}

#[test]
fn test_order_error_conversions() {
    let from_user: OrderError = UserError::NotFound("user 3".to_string()).into();
    assert_eq!(from_user, OrderError::UserService(UserError::NotFound("user 3".to_string())));
    let from_product: OrderError =
        actor_recipe::product_actor::ProductError::InvalidQuantity(0).into();
    assert_eq!(
        from_product,
        OrderError::ProductService(actor_recipe::product_actor::ProductError::InvalidQuantity(0))
    );
    let from_msg: OrderError = String::from("mailbox gone").into();
    assert_eq!(from_msg, OrderError::ActorCommunicationError("mailbox gone".to_string()));
}
