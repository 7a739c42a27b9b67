use relay_broker::auth::Auth;
use relay_broker::auth_service::{AuthService, NewAuthService};
use relay_broker::channel::Delivery;
use relay_broker::dispatcher::{handle, handle_each};
use relay_broker::registry::Registry;
use relay_broker::session::{websocket, Message, MyMessage, SessionState};
use relay_broker::status::Status;
use relay_broker::token_store::TokenStore;

#[test]
fn register_connect_send_end_to_end() {
    let mut store = TokenStore::new();
    let mut registry = Registry::new();
    let saved = NewAuthService::new(0)
        .save(&mut store, Auth::new("abc12345".to_string(), "T1".to_string()))
        .unwrap();
    assert_eq!((saved.id(), saved.token()), ("abc12345", "T1"));

    let connecting = AuthService::from_request(None, Some("T1"), true);
    let (mut relay, mut receiver) =
        websocket("abc12345", &connecting, &store, &mut registry, 1).unwrap();
    assert_eq!(relay.state(), SessionState::Relaying);

    let sender = AuthService::from_request(Some("T1"), None, false);
    let status = handle("abc12345", &sender, &store, &mut registry, "{\"body\":{\"raw\":\"hi\"}}");
    assert_eq!(status, Status::Accepted);
    assert_eq!(status.code(), 202);
    let message = receiver.try_recv().unwrap();
    match relay.on_message(MyMessage::Out(message)) {
        Some(Message::Text(text)) => assert!(text.contains("hi")),
        other => panic!("unexpected frame {other:?}"),
    }

    let intruder = AuthService::from_request(Some("T2"), None, false);
    let status = handle("abc12345", &intruder, &store, &mut registry, "{\"body\":{\"raw\":\"hi\"}}");
    assert_eq!(status, Status::Unauthorized);
    assert_eq!(status.code(), 401);
    assert!(receiver.try_recv().is_err());
    assert_eq!(registry.subscribers("abc12345").len(), 1);
}

#[test]
fn send_to_unknown_id_is_not_found() {
    let store = TokenStore::new();
    let mut registry = Registry::new();
    let auth = AuthService::from_request(Some("T1"), None, false);
    assert_eq!(handle("abc12345", &auth, &store, &mut registry, "x"), Status::NotFound);
    assert_eq!(Status::NotFound.code(), 404);
}

#[test]
fn send_without_subscribers_is_still_accepted() {
    let mut store = TokenStore::new();
    let mut registry = Registry::new();
    NewAuthService::new(0)
        .save(&mut store, Auth::new("abc12345".to_string(), "T1".to_string()))
        .unwrap();
    let auth = AuthService::from_request(Some("T1"), None, false);
    assert_eq!(handle("abc12345", &auth, &store, &mut registry, "x"), Status::Accepted);

    let (_relay, receiver) = websocket("abc12345", &auth, &store, &mut registry, 1).unwrap();
    drop(receiver);
    assert_eq!(handle("abc12345", &auth, &store, &mut registry, "x"), Status::Accepted);
    assert!(registry.snapshot().is_empty());
}

#[test]
fn send_does_not_reach_other_endpoints() {
    let mut store = TokenStore::new();
    let mut registry = Registry::new();
    for id in ["abc12345", "xyz12345"] {
        NewAuthService::new(0)
            .save(&mut store, Auth::new(id.to_string(), String::new()))
            .unwrap();
    }
    let auth = AuthService::from_request(None, None, false);
    let (_a, mut ra) = websocket("abc12345", &auth, &store, &mut registry, 1).unwrap();
    let (_b, mut rb) = websocket("xyz12345", &auth, &store, &mut registry, 2).unwrap();
    assert_eq!(handle("abc12345", &auth, &store, &mut registry, "x"), Status::Accepted);
    assert!(ra.try_recv().is_ok());
    assert!(rb.try_recv().is_err());
}

#[test]
fn refused_call_attempts_nothing() {
    let mut store = TokenStore::new();
    let mut registry = Registry::new();
    NewAuthService::new(0)
        .save(&mut store, Auth::new("abc12345".to_string(), "T1".to_string()))
        .unwrap();
    let owner = AuthService::from_request(Some("T1"), None, false);
    let (_relay, mut receiver) = websocket("abc12345", &owner, &store, &mut registry, 7).unwrap();

    let intruder = AuthService::from_request(Some("T2"), None, false);
    let done = handle_each("abc12345", &intruder, &store, &mut registry, "x");
    assert_eq!(done.status, Status::Unauthorized);
    assert!(done.attempts.is_empty());
    assert!(receiver.try_recv().is_err());

    let done = handle_each("missing0", &owner, &store, &mut registry, "x");
    assert_eq!(done.status, Status::NotFound);
    assert!(done.attempts.is_empty());

    let done = handle_each("abc12345", &owner, &store, &mut registry, "x");
    assert_eq!(done.status, Status::Accepted);
    assert_eq!(done.attempts.len(), 1);
    assert_eq!((done.attempts[0].session, done.attempts[0].outcome), (7, Delivery::Delivered));
    assert!(matches!(
        receiver.try_recv(),
        Ok(relay_broker::message::WsMessage::Request(payload)) if payload == "x"
    ));
}
