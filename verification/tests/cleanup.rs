use relay_broker::auth::ConfigurationAuth;
use relay_broker::auth_service::AuthService;
use relay_broker::channel::{open_channel, Attempt, Delivery};
use relay_broker::cleanup::{cleanup_tokens, cutoff, evict_expired, notify_expired, sweep};
use relay_broker::message::WsMessage;
use relay_broker::registry::Registry;
use relay_broker::session::{websocket, Message, MyMessage, SessionState};
use relay_broker::status::Status;
use relay_broker::token_store::{AuthRecord, TokenStore};

fn pairs(notices: &Vec<Vec<Attempt>>) -> Vec<Vec<(u64, Delivery)>> {
    notices.iter().map(|list| list.iter().map(|a| (a.session, a.outcome)).collect()).collect()
}

fn guard() -> ConfigurationAuth {
    ConfigurationAuth::from_header(Some("secret"), "secret").unwrap()
}

#[test]
fn cutoff_is_now_minus_max_age() {
    assert_eq!(cutoff(1000, 60), 940);
    assert_eq!(cutoff(0, 60), -60);
    assert_eq!(cutoff(-5, -5), 0);
    assert_eq!(cutoff(i64::MIN, 1), -9_223_372_036_854_775_809);
    assert_eq!(cutoff(i64::MAX, -1), 9_223_372_036_854_775_808);
    assert_eq!(cutoff(i64::MIN, 0), -9_223_372_036_854_775_808);
}

#[test]
fn sweep_at_the_ends_of_time() {
    let mut store = TokenStore::new();
    store.insert(AuthRecord::new("first-01", "x", i64::MIN)).unwrap();
    store.insert(AuthRecord::new("last-001", "x", i64::MAX)).unwrap();
    let mut registry = Registry::new();
    let done = cleanup_tokens(guard(), i64::MIN, 1, &mut store, &mut registry);
    assert!(done.notices.is_empty());
    assert_eq!(store.len(), 2);
    let done = cleanup_tokens(guard(), i64::MIN, 0, &mut store, &mut registry);
    assert!(done.notices.is_empty());
    assert_eq!(store.len(), 2);
    let done = cleanup_tokens(guard(), i64::MAX, 0, &mut store, &mut registry);
    assert_eq!(done.notices.len(), 1);
    assert!(store.lookup("first-01").is_none());
    assert!(store.lookup("last-001").is_some());
    let done = cleanup_tokens(guard(), i64::MAX, -1, &mut store, &mut registry);
    assert_eq!(done.notices.len(), 1);
    assert_eq!(store.len(), 0);
}

#[test]
fn sweep_purges_old_tokens_and_closes_their_sessions() {
    let now = 10_000;
    let mut store = TokenStore::new();
    store.insert(AuthRecord::new("old-0001", "T1", now - 61)).unwrap();
    store.insert(AuthRecord::new("young-01", "T2", now - 59)).unwrap();
    store.insert(AuthRecord::new("edge-001", "T3", now - 60)).unwrap();
    let mut registry = Registry::new();
    let old = AuthService::from_request(Some("T1"), None, true);
    let young = AuthService::from_request(Some("T2"), None, true);
    let (mut a, mut ra) = websocket("old-0001", &old, &store, &mut registry, 1).unwrap();
    let (mut b, mut rb) = websocket("old-0001", &old, &store, &mut registry, 2).unwrap();
    let (c, mut rc) = websocket("young-01", &young, &store, &mut registry, 3).unwrap();

    let done = cleanup_tokens(guard(), now, 60, &mut store, &mut registry);
    assert_eq!(done.status, Status::Accepted);
    assert_eq!(
        pairs(&done.notices),
        vec![vec![(1, Delivery::Delivered), (2, Delivery::Delivered)]]
    );
    assert!(store.lookup("old-0001").is_none());
    assert_eq!(store.lookup("young-01").unwrap().issued_at, now - 59);
    assert_eq!(store.lookup("edge-001").unwrap().issued_at, now - 60);
    assert!(registry.subscribers("old-0001").is_empty());
    assert_eq!(registry.subscribers("young-01").len(), 1);

    for (relay, receiver) in [(&mut a, &mut ra), (&mut b, &mut rb)] {
        let message = receiver.try_recv().unwrap();
        assert!(matches!(message, WsMessage::TokenExpired));
        match relay.on_message(MyMessage::Out(message)) {
            Some(Message::Close(Some(frame))) => {
                assert_eq!(frame.code, 4001);
                assert_eq!(frame.reason, "SERVER");
            }
            other => panic!("unexpected frame {other:?}"),
        }
        assert_eq!(relay.state(), SessionState::Closed);
    }
    assert!(rc.try_recv().is_err());
    assert_eq!(c.state(), SessionState::Relaying);
    assert_eq!(old.check(&store, "old-0001"), Err(Status::NotFound));
    assert_eq!(young.check(&store, "young-01"), Ok(()));
}

#[test]
fn sweep_is_idempotent() {
    let mut store = TokenStore::new();
    store.insert(AuthRecord::new("old-0001", "T1", 0)).unwrap();
    let mut registry = Registry::new();
    let first = cleanup_tokens(guard(), 100, 60, &mut store, &mut registry);
    assert_eq!(pairs(&first.notices), vec![Vec::<(u64, Delivery)>::new()]);
    let second = cleanup_tokens(guard(), 100, 60, &mut store, &mut registry);
    assert_eq!(second.status, Status::Accepted);
    assert!(second.notices.is_empty());
    assert_eq!(store.len(), 0);
}

#[test]
fn failed_query_leaves_everything_untouched() {
    let mut registry = Registry::new();
    let (s1, mut r1) = open_channel(1);
    registry.subscribe("old-0001", s1);
    let done = sweep(None, &mut registry);
    assert_eq!(done.status, Status::InternalServerError);
    assert!(done.notices.is_empty());
    assert_eq!(registry.subscribers("old-0001").len(), 1);
    assert!(r1.try_recv().is_err());

    let done = sweep(Some(vec![AuthRecord::new("old-0001", "T1", 0)]), &mut registry);
    assert_eq!(done.status, Status::Accepted);
    assert_eq!(pairs(&done.notices), vec![vec![(1, Delivery::Delivered)]]);
    assert!(matches!(r1.try_recv(), Ok(WsMessage::TokenExpired)));
    assert!(registry.snapshot().is_empty());
}

#[test]
fn eviction_skips_closed_channels() {
    let mut registry = Registry::new();
    let (s1, r1) = open_channel(1);
    let (s2, mut r2) = open_channel(2);
    let (s3, mut r3) = open_channel(3);
    registry.subscribe("old-0001", s1);
    registry.subscribe("old-0001", s2);
    registry.subscribe("other-01", s3);
    drop(r1);
    let records = vec![AuthRecord::new("old-0001", "T1", 0), AuthRecord::new("gone-001", "", 0)];
    let notices = evict_expired(&records, &mut registry);
    assert_eq!(
        pairs(&notices),
        vec![vec![(1, Delivery::Closed), (2, Delivery::Delivered)], vec![]]
    );
    assert!(matches!(r2.try_recv(), Ok(WsMessage::TokenExpired)));
    assert!(r3.try_recv().is_err());
    assert_eq!(registry.subscribers("other-01").len(), 1);
    assert!(notify_expired(&Vec::new()).is_empty());
}
