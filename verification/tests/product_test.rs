use actor_recipe::actor::ResourceActor;
use actor_recipe::error::FrameworkError;
use actor_recipe::mock::{Expectation, MockScript, RequestKind};
use actor_recipe::model::product::{Product, ProductCreate, ProductId, ProductUpdate};
use actor_recipe::product_actor::{ProductAction, ProductActionResult, ProductError};

#[test]
fn test_check_stock_returns_correct_level() {
    // A client-side check-stock against a scripted double: the double
    // answers the scripted level, and the client reads it back without
    // matching on foreign variants.
    let script: MockScript<Product> = MockScript::new();
    let mut script = script
        .expect_action(ProductId(1))
        .return_ok(ProductActionResult::CheckStock(42));

    let entry = script.respond(RequestKind::Action).expect("Expected Action request");
    match entry {
        Expectation::Action { id, response } => {
            assert_eq!(id, ProductId(1));
            let result = response.unwrap();
            assert_eq!(result.stock_level(), Some(42));
        }
        _ => panic!("Expected Action request"),
    }
    assert!(script.verify());
}

#[test]
fn test_reserve_stock_success() {
    let mut actor: ResourceActor<Product> = ResourceActor::new();
    let id = actor
        .handle_create(
            ProductCreate { name: "Widget".to_string(), price_cents: 1000, quantity: 10 },
            &(),
        )
        .unwrap();

    let result = actor.handle_action(id, ProductAction::ReserveStock(5), &()).unwrap();
    assert!(result.is_reservation());

    let level = actor
        .handle_action(id, ProductAction::CheckStock, &())
        .unwrap()
        .stock_level()
        .unwrap();
    assert_eq!(level, 5);
}

#[test]
fn test_reserve_stock_insufficient_stock() {
    let mut actor: ResourceActor<Product> = ResourceActor::new();
    let id = actor
        .handle_create(
            ProductCreate { name: "Widget".to_string(), price_cents: 1000, quantity: 10 },
            &(),
        )
        .unwrap();

    let result = actor.handle_action(id, ProductAction::ReserveStock(100), &());
    assert_eq!(
        result,
        Err(FrameworkError::EntityError(ProductError::InsufficientStock {
            requested: 100,
            available: 10,
        }))
    );

    // The failed action is a no-op on state
    let level = actor
        .handle_action(id, ProductAction::CheckStock, &())
        .unwrap()
        .stock_level()
        .unwrap();
    assert_eq!(level, 10);
}

#[test]
fn test_type_safety_compile_time() {
    // This test verifies compile-time type safety: the fact that this file
    // compiles proves that a product worker only accepts product payloads,
    // product actions and product errors. The other tests exercise those
    // types in action.
}

#[test]
fn test_product_update_applies_partially() {
    let mut actor: ResourceActor<Product> = ResourceActor::new();
    let id = actor
        .handle_create(
            ProductCreate { name: "Widget".to_string(), price_cents: 1000, quantity: 10 },
            &(),
        )
        .unwrap();

    let updated = actor
        .handle_update(id, ProductUpdate { price_cents: Some(1250), quantity: None }, &())
        .unwrap();
    assert_eq!(updated.price_cents, 1250);
    assert_eq!(updated.quantity, 10);
    assert_eq!(updated.name, "Widget");

    let fetched = actor.handle_get(id).unwrap();
    assert_eq!(fetched, updated);
}

#[test]
fn test_product_error_from_message() {
    let e: ProductError = String::from("mailbox gone").into();
    assert_eq!(e, ProductError::ActorCommunicationError("mailbox gone".to_string()));
}
