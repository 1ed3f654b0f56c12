use actor_recipe::error::FrameworkError;
use actor_recipe::mock::{Expectation, MockFailure, MockScript, RequestKind};
use actor_recipe::model::user::{User, UserId};

#[test]
fn test_mock_client() {
    // Script one create, then answer one create request from it.
    let script: MockScript<User> = MockScript::new();
    let mut script = script.expect_create().return_ok(UserId(1));

    let entry = script.respond(RequestKind::Create).expect("Expected Create request");
    match entry {
        Expectation::Create { response } => assert_eq!(response, Ok(UserId(1))),
        _ => panic!("Expected Create request"),
    }
    assert!(script.verify());
}

#[test]
fn test_mock_client_with_expectations() {
    // Set up expectations: a create answering user 1, then a get answering
    // that user's record.
    let stored = User {
        id: UserId(1),
        name: "Test".to_string(),
        email: "test@example.com".to_string(),
    };
    let script: MockScript<User> = MockScript::new();
    let script = script.expect_create().return_ok(UserId(1));
    let mut script = script.expect_get(UserId(1)).return_ok(Some(stored.clone()));

    // Execute operations in the scripted order
    match script.respond(RequestKind::Create).unwrap() {
        Expectation::Create { response } => assert_eq!(response, Ok(UserId(1))),
        _ => panic!("Expected Create request"),
    }
    match script.respond(RequestKind::Get).unwrap() {
        Expectation::Get { id, response } => {
            assert_eq!(id, UserId(1));
            let fetched = response.unwrap();
            assert!(fetched.is_some());
            assert_eq!(fetched.unwrap().email, "test@example.com");
        }
        _ => panic!("Expected Get request"),
    }

    // Verify all expectations were met
    assert!(script.verify());
}

#[test]
fn test_mock_scripted_create_yields_scripted_value() {
    // Scripting a create and then calling it yields exactly the scripted
    // value; verifying before the scripted call happens must fail.
    let script: MockScript<User> = MockScript::new();
    let mut script = script.expect_create().return_ok(UserId(42));

    // The expectation has not been consumed yet: verify must report failure.
    assert!(!script.verify());
    assert_eq!(script.remaining(), 1);

    let entry = script.respond(RequestKind::Create).unwrap();
    match entry {
        Expectation::Create { response } => assert_eq!(response, Ok(UserId(42))),
        _ => panic!("Expected Create request"),
    }
    assert!(script.verify());
}

#[test]
fn test_mock_kind_mismatch_fails_loudly() {
    let script: MockScript<User> = MockScript::new();
    let mut script = script.expect_create().return_ok(UserId(1));

    // A get arrives where a create was scripted: the double refuses.
    assert!(matches!(script.respond(RequestKind::Get), Err(MockFailure::KindMismatch)));
    // The entry is not consumed by the refusal.
    assert_eq!(script.remaining(), 1);
}

#[test]
fn test_mock_unscripted_request_fails_loudly() {
    let mut script: MockScript<User> = MockScript::new();
    assert!(matches!(script.respond(RequestKind::Create), Err(MockFailure::UnexpectedRequest)));
}

#[test]
fn test_mock_scripted_error_is_returned() {
    let script: MockScript<User> = MockScript::new();
    let mut script = script.expect_get(UserId(3)).return_err(FrameworkError::ActorDropped);
    match script.respond(RequestKind::Get).unwrap() {
        Expectation::Get { id, response } => {
            assert_eq!(id, UserId(3));
            assert_eq!(response, Err(FrameworkError::ActorDropped));
        }
        _ => panic!("Expected Get request"),
    }
    assert!(script.verify());
}
