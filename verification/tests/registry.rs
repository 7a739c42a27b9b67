use futures_channel::mpsc::Receiver;
use relay_broker::channel::{
    approach, conclude, open_channel, Approach, Attempt, Conclusion, Delivery, Subscriber,
};
use relay_broker::message::WsMessage;
use relay_broker::registry::{attempt_all, delivered, settle, Registry};

fn next_payload(receiver: &mut Receiver<WsMessage>) -> Option<String> {
    match receiver.try_recv() {
        Ok(WsMessage::Request(payload)) => Some(payload),
        _ => None,
    }
}

fn sessions(list: &Vec<Subscriber>) -> Vec<u64> {
    list.iter().map(|s| s.session()).collect()
}

fn attempt(session: u64, outcome: Delivery) -> (u64, Delivery) {
    (session, outcome)
}

fn pairs(attempts: &Vec<Attempt>) -> Vec<(u64, Delivery)> {
    attempts.iter().map(|a| (a.session, a.outcome)).collect()
}

#[test]
fn dispatch_reaches_every_subscriber_of_the_id_in_order() {
    let mut registry = Registry::new();
    let (s1, mut r1) = open_channel(1);
    let (s2, mut r2) = open_channel(2);
    let (s3, mut r3) = open_channel(3);
    registry.subscribe("alpha", s1);
    registry.subscribe("alpha", s2);
    registry.subscribe("beta", s3);
    assert_eq!(sessions(&registry.subscribers("alpha")), vec![1, 2]);

    let attempts = registry.dispatch_each("alpha", &WsMessage::request("m"));
    assert_eq!(
        pairs(&attempts),
        vec![attempt(1, Delivery::Delivered), attempt(2, Delivery::Delivered)]
    );
    assert_eq!(next_payload(&mut r1), Some("m".to_string()));
    assert_eq!(next_payload(&mut r2), Some("m".to_string()));
    assert_eq!(next_payload(&mut r1), None);
    assert_eq!(next_payload(&mut r3), None);
    assert_eq!(sessions(&registry.subscribers("alpha")), vec![1, 2]);
    assert_eq!(sessions(&registry.subscribers("beta")), vec![3]);
}

#[test]
fn dispatch_drops_a_subscriber_whose_channel_was_closed() {
    let mut registry = Registry::new();
    let (s1, r1) = open_channel(1);
    let (s2, mut r2) = open_channel(2);
    registry.subscribe("alpha", s1);
    registry.subscribe("alpha", s2);
    drop(r1);

    let attempts = registry.dispatch_each("alpha", &WsMessage::request("m"));
    assert_eq!(pairs(&attempts), vec![attempt(1, Delivery::Closed), attempt(2, Delivery::Delivered)]);
    assert_eq!(next_payload(&mut r2), Some("m".to_string()));
    assert_eq!(sessions(&registry.subscribers("alpha")), vec![2]);
    assert!(registry.dispatch("alpha", &WsMessage::request("n")));
    assert_eq!(next_payload(&mut r2), Some("n".to_string()));
}

#[test]
fn dispatch_without_live_subscribers_removes_the_entry() {
    let mut registry = Registry::new();
    let (s1, r1) = open_channel(1);
    registry.subscribe("alpha", s1);
    drop(r1);
    assert!(!registry.dispatch("alpha", &WsMessage::request("m")));
    assert!(registry.snapshot().is_empty());
    assert!(!registry.dispatch("alpha", &WsMessage::request("m")));
    assert!(registry.dispatch_each("never", &WsMessage::request("m")).is_empty());
}

#[test]
fn messages_arrive_in_the_order_sent() {
    let mut registry = Registry::new();
    let (s1, mut r1) = open_channel(1);
    registry.subscribe("alpha", s1);
    for n in 0..8 {
        assert!(registry.dispatch("alpha", &WsMessage::request(&format!("m{n}"))));
    }
    for n in 0..8 {
        assert_eq!(next_payload(&mut r1), Some(format!("m{n}")));
    }
    assert_eq!(next_payload(&mut r1), None);
}

#[test]
fn evict_takes_the_whole_entry() {
    let mut registry = Registry::new();
    let (s1, _r1) = open_channel(1);
    let (s2, _r2) = open_channel(2);
    let (s3, _r3) = open_channel(3);
    registry.subscribe("alpha", s1);
    registry.subscribe("beta", s3);
    registry.subscribe("alpha", s2);
    assert_eq!(sessions(&registry.evict("alpha")), vec![1, 2]);
    assert!(registry.subscribers("alpha").is_empty());
    assert!(registry.evict("alpha").is_empty());
    assert_eq!(sessions(&registry.subscribers("beta")), vec![3]);
}

#[test]
fn snapshot_lists_every_entry_once() {
    let mut registry = Registry::new();
    assert!(registry.snapshot().is_empty());
    let (s1, _r1) = open_channel(1);
    let (s2, _r2) = open_channel(2);
    let (s3, _r3) = open_channel(3);
    registry.subscribe("alpha", s1);
    registry.subscribe("beta", s2);
    registry.subscribe("alpha", s3);
    let mut all: Vec<(String, Vec<u64>)> =
        registry.snapshot().iter().map(|(id, list)| (id.clone(), sessions(list))).collect();
    all.sort();
    assert_eq!(all, vec![("alpha".to_string(), vec![1, 3]), ("beta".to_string(), vec![2])]);
}

#[test]
fn settle_keeps_those_that_took_the_message() {
    let (s1, _r1) = open_channel(1);
    let (s2, _r2) = open_channel(2);
    let (s3, _r3) = open_channel(3);
    let message = WsMessage::request("m");
    let attempts = vec![
        Attempt::new(1, Delivery::Delivered, &message),
        Attempt::new(2, Delivery::Failed, &message),
        Attempt::new(3, Delivery::Delivered, &message),
    ];
    assert_eq!(
        pairs(&attempts),
        vec![
            attempt(1, Delivery::Delivered),
            attempt(2, Delivery::Failed),
            attempt(3, Delivery::Delivered),
        ]
    );
    assert_eq!(sessions(&settle(vec![s1, s2, s3], &attempts)), vec![1, 3]);
    assert!(delivered(&attempts));
    assert!(!delivered(&vec![
        Attempt::new(1, Delivery::Failed, &message),
        Attempt::new(2, Delivery::Closed, &message),
    ]));
    assert!(!delivered(&Vec::new()));

    let (s4, _r4) = open_channel(4);
    assert!(settle(vec![s4], &Vec::new()).is_empty());
}

#[test]
fn attempts_tell_open_from_closed_channels() {
    let (s1, mut r1) = open_channel(1);
    let (s2, r2) = open_channel(2);
    drop(r2);
    let subscribers = vec![s1, s2];
    let attempts = attempt_all(&subscribers, &WsMessage::TokenExpired, true);
    assert_eq!(pairs(&attempts), vec![attempt(1, Delivery::Delivered), attempt(2, Delivery::Closed)]);
    assert!(matches!(r1.try_recv(), Ok(WsMessage::TokenExpired)));
    assert!(!subscribers[0].is_closed());
    assert!(subscribers[1].is_closed());
    subscribers[0].close();
    assert!(subscribers[0].is_closed());
    assert_eq!(subscribers[0].deliver(WsMessage::Shutdown).outcome, Delivery::Closed);
}

#[test]
fn a_second_record_sends_on_the_same_channel() {
    let (s1, mut r1) = open_channel(9);
    let copy = s1.duplicate();
    assert_eq!(copy.session(), 9);
    assert_eq!(copy.notify(WsMessage::request("x")).outcome, Delivery::Delivered);
    assert_eq!(next_payload(&mut r1), Some("x".to_string()));
}

#[test]
fn closed_channel_is_passed_over_and_open_one_sent_to() {
    assert_eq!(approach(true), Approach::PassOver);
    assert_eq!(approach(false), Approach::Send);
}

#[test]
fn attempt_ends_by_what_the_channel_answered() {
    let closed = Conclusion { outcome: Delivery::Closed, close: false };
    let delivered = Conclusion { outcome: Delivery::Delivered, close: false };
    for close_failed in [false, true] {
        assert_eq!(conclude(Approach::PassOver, false, close_failed), closed);
        assert_eq!(conclude(Approach::PassOver, true, close_failed), closed);
        assert_eq!(conclude(Approach::Send, true, close_failed), delivered);
    }
    assert_eq!(
        conclude(Approach::Send, false, true),
        Conclusion { outcome: Delivery::Failed, close: true }
    );
    assert_eq!(
        conclude(Approach::Send, false, false),
        Conclusion { outcome: Delivery::Failed, close: false }
    );
}

#[test]
fn nothing_is_queued_on_a_channel_that_was_closed() {
    let (s1, mut r1) = open_channel(1);
    r1.close();
    assert_eq!(s1.attempt(WsMessage::request("x"), true).outcome, Delivery::Closed);
    assert_eq!(s1.attempt(WsMessage::request("x"), false).outcome, Delivery::Closed);
    assert_eq!(s1.notify(WsMessage::request("x")).outcome, Delivery::Closed);
    assert!(r1.try_recv().is_err());
}

#[test]
fn attempts_close_a_failed_channel_only_when_asked() {
    let (s1, mut r1) = open_channel(1);
    let subscribers = vec![s1];
    let kept = attempt_all(&subscribers, &WsMessage::ServerShutdown, false);
    assert_eq!(pairs(&kept), vec![(1, Delivery::Delivered)]);
    assert!(matches!(r1.try_recv(), Ok(WsMessage::ServerShutdown)));
    assert!(!subscribers[0].is_closed());
}
