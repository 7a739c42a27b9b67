use relay_broker::channel::{open_channel, Attempt, Delivery};
use relay_broker::message::WsMessage;
use relay_broker::registry::Registry;
use relay_broker::session::{Message, MyMessage, RelaySession};
use relay_broker::shutdown::{bid_farewell, close_websockets};

fn pairs(attempts: &Vec<Attempt>) -> Vec<(u64, Delivery)> {
    attempts.iter().map(|a| (a.session, a.outcome)).collect()
}

#[test]
fn shutdown_tells_every_open_session_and_no_closed_one() {
    let mut registry = Registry::new();
    let (s1, mut r1) = open_channel(1);
    let (s2, r2) = open_channel(2);
    let (s3, mut r3) = open_channel(3);
    registry.subscribe("alpha", s1);
    registry.subscribe("alpha", s2);
    registry.subscribe("beta", s3);
    drop(r2);

    let mut report: Vec<(String, Vec<(u64, Delivery)>)> = close_websockets(&registry)
        .into_iter()
        .map(|farewell| (farewell.id, pairs(&farewell.attempts)))
        .collect();
    report.sort_by(|a, b| a.0.cmp(&b.0));
    assert_eq!(
        report,
        vec![
            (
                "alpha".to_string(),
                vec![(1, Delivery::Delivered), (2, Delivery::Closed)]
            ),
            ("beta".to_string(), vec![(3, Delivery::Delivered)]),
        ]
    );
    assert!(matches!(r1.try_recv(), Ok(WsMessage::ServerShutdown)));
    assert!(r1.try_recv().is_err());
    assert!(matches!(r3.try_recv(), Ok(WsMessage::ServerShutdown)));
    assert_eq!(registry.subscribers("alpha").len(), 2);
    assert_eq!(registry.subscribers("beta").len(), 1);
}

#[test]
fn shutdown_of_an_empty_registry_does_nothing() {
    let registry = Registry::new();
    assert!(close_websockets(&registry).is_empty());
    assert!(bid_farewell(&Vec::new()).is_empty());
}

#[test]
fn farewell_makes_the_session_close_with_going_away() {
    let (s1, mut r1) = open_channel(1);
    let attempts = bid_farewell(&vec![s1]);
    assert_eq!(pairs(&attempts), vec![(1, Delivery::Delivered)]);
    let message = r1.try_recv().unwrap();
    let mut relay = RelaySession::connecting("alpha", 1);
    assert!(relay.on_message(MyMessage::Out(message.duplicate())).is_none());
    match relay_broker::session::answer(message) {
        Message::Close(Some(frame)) => assert_eq!((frame.code, frame.reason.as_str()), (1001, "SERVER")),
        other => panic!("unexpected frame {other:?}"),
    }
}
