use chat_hub::broadcast::broadcast_msg;
use chat_hub::broadcast::relay_frame;
use chat_hub::broadcast::BroadcastReport;
use chat_hub::broadcast::Relayed;
use chat_hub::envelope::ParseError;
use chat_hub::payload::Payload;
use chat_hub::registry::Registry;
use tokio::sync::mpsc::unbounded_channel;
use tokio::sync::mpsc::UnboundedReceiver;

fn text(s: &str) -> Payload {
    Payload::Text(s.to_string())
}

fn hub(ids: &[usize]) -> (Registry, Vec<(usize, UnboundedReceiver<Payload>)>) {
    let mut users = Registry::new();
    let mut receivers = Vec::new();
    for id in ids {
        let (tx, rx) = unbounded_channel::<Payload>();
        users.register(*id, tx);
        receivers.push((*id, rx));
    }
    (users, receivers)
}

fn drain(rx: &mut UnboundedReceiver<Payload>) -> Vec<Payload> {
    let mut got = Vec::new();
    while let Ok(payload) = rx.try_recv() {
        got.push(payload);
    }
    got
}

fn sorted(ids: &[usize]) -> Vec<usize> {
    let mut ids = ids.to_vec();
    ids.sort();
    ids
}

#[test]
fn broadcast_reaches_every_endpoint_once() {
    let (users, mut receivers) = hub(&[1, 2, 3]);
    let report = broadcast_msg(&text("hello"), &users);
    assert_eq!(report.refused, None);
    assert!(report.is_complete());
    assert_eq!(report.delivered.len(), 3);
    assert_eq!(sorted(&report.delivered), vec![1, 2, 3]);
    for (_, rx) in receivers.iter_mut() {
        assert_eq!(drain(rx), vec![text("hello")]);
    }
}

#[test]
fn broadcast_makes_as_many_attempts_as_there_are_endpoints() {
    for k in [0usize, 1, 2, 17, 100] {
        let ids: Vec<usize> = (1..=k).collect();
        let (users, mut receivers) = hub(&ids);
        let report = broadcast_msg(&text("x"), &users);
        assert_eq!(report.refused, None);
        assert_eq!(report.delivered.len(), k);
        assert_eq!(sorted(&report.delivered), ids);
        let queued: usize = receivers.iter_mut().map(|(_, rx)| drain(rx).len()).sum();
        assert_eq!(queued, k);
    }
}

#[test]
fn broadcast_to_an_empty_registry_does_nothing() {
    let users = Registry::new();
    let report = broadcast_msg(&text("hello"), &users);
    assert_eq!(report, BroadcastReport { delivered: vec![], refused: None });
}

#[test]
fn broadcast_skips_frames_that_are_not_text() {
    let (users, mut receivers) = hub(&[1, 2]);
    for frame in [
        Payload::Binary(vec![1]),
        Payload::Ping(vec![]),
        Payload::Pong(vec![2]),
        Payload::Close(None),
    ] {
        let report = broadcast_msg(&frame, &users);
        assert_eq!(report, BroadcastReport { delivered: vec![], refused: None });
    }
    for (_, rx) in receivers.iter_mut() {
        assert!(drain(rx).is_empty());
    }
}

#[test]
fn broadcast_keeps_the_order_of_one_sender() {
    let (users, mut receivers) = hub(&[1, 2]);
    for n in 0..10 {
        broadcast_msg(&text(&n.to_string()), &users);
    }
    let expected: Vec<Payload> = (0..10).map(|n| text(&n.to_string())).collect();
    for (_, rx) in receivers.iter_mut() {
        assert_eq!(drain(rx), expected);
    }
}

#[test]
fn broadcast_stops_at_an_endpoint_whose_queue_is_closed() {
    let (users, mut receivers) = hub(&[1, 2, 3]);
    let (gone, rx) = receivers.remove(1);
    drop(rx);
    let report = broadcast_msg(&text("hello"), &users);
    assert_eq!(report.refused, Some(gone));
    assert!(!report.is_complete());
    assert!(!report.delivered.contains(&gone));
    assert!(report.delivered.len() <= 2);
    for (id, rx) in receivers.iter_mut() {
        let expected = if report.delivered.contains(id) { vec![text("hello")] } else { vec![] };
        assert_eq!(drain(rx), expected);
    }
}

#[test]
fn broadcast_to_a_single_closed_queue_delivers_nothing() {
    let (users, receivers) = hub(&[4]);
    drop(receivers);
    let report = broadcast_msg(&text("hello"), &users);
    assert_eq!(report, BroadcastReport { delivered: vec![], refused: Some(4) });
}

#[test]
fn record_notes_an_accepting_endpoint() {
    let report = BroadcastReport::new().record(3, true).record(1, true);
    assert_eq!(report, BroadcastReport { delivered: vec![3, 1], refused: None });
    assert!(report.is_complete());
}

#[test]
fn record_notes_a_refusing_endpoint() {
    let report = BroadcastReport::new().record(3, true).record(1, false);
    assert_eq!(report, BroadcastReport { delivered: vec![3], refused: Some(1) });
    assert!(!report.is_complete());
}

#[test]
fn relay_returns_the_senders_own_message() {
    let (users, mut receivers) = hub(&[1]);
    let outcome = relay_frame(text(r#"{"name":"alice","message":"hi"}"#), 1, &users);
    let expected = text(r#"{"name":"alice","uid":1,"message":"hi"}"#);
    assert_eq!(
        outcome,
        Relayed::Broadcast {
            payload: expected.clone(),
            report: BroadcastReport { delivered: vec![1], refused: None },
        }
    );
    assert_eq!(drain(&mut receivers[0].1), vec![expected]);
}

#[test]
fn relay_reaches_the_sender_and_everyone_else() {
    let (users, mut receivers) = hub(&[1, 2, 3]);
    let outcome = relay_frame(text(r#"{"name":"carol","message":"yo"}"#), 3, &users);
    let expected = text(r#"{"name":"carol","uid":3,"message":"yo"}"#);
    match outcome {
        Relayed::Broadcast { payload, report } => {
            assert_eq!(payload, expected);
            assert!(report.delivered.contains(&3));
            assert_eq!(sorted(&report.delivered), vec![1, 2, 3]);
            assert_eq!(report.refused, None);
        }
        other => panic!("expected a broadcast, got {:?}", other),
    }
    for (_, rx) in receivers.iter_mut() {
        assert_eq!(drain(rx), vec![expected.clone()]);
    }
}

#[test]
fn relay_drops_text_that_is_not_json() {
    let (users, mut receivers) = hub(&[1, 2]);
    let outcome = relay_frame(text("not json at all"), 1, &users);
    assert_eq!(outcome, Relayed::Dropped(ParseError::Document));
    for (_, rx) in receivers.iter_mut() {
        assert!(drain(rx).is_empty());
    }
}

#[test]
fn relay_drops_json_of_the_wrong_shape() {
    let (users, mut receivers) = hub(&[1, 2]);
    assert_eq!(
        relay_frame(text(r#"{"name":"alice"}"#), 1, &users),
        Relayed::Dropped(ParseError::Message)
    );
    assert_eq!(
        relay_frame(text(r#"{"message":"hi"}"#), 1, &users),
        Relayed::Dropped(ParseError::Name)
    );
    assert_eq!(
        relay_frame(text(r#"{"name":1,"message":"hi"}"#), 2, &users),
        Relayed::Dropped(ParseError::Name)
    );
    assert_eq!(relay_frame(text(r#"[1,2]"#), 2, &users), Relayed::Dropped(ParseError::Document));
    for (_, rx) in receivers.iter_mut() {
        assert!(drain(rx).is_empty());
    }
}

#[test]
fn relay_keeps_malformed_text_away_from_later_messages() {
    let (users, mut receivers) = hub(&[1, 2]);
    relay_frame(text("garbage"), 1, &users);
    relay_frame(text(r#"{"name":"alice","message":"ok"}"#), 1, &users);
    let expected = vec![text(r#"{"name":"alice","uid":1,"message":"ok"}"#)];
    for (_, rx) in receivers.iter_mut() {
        assert_eq!(drain(rx), expected);
    }
}

#[test]
fn relay_does_not_broadcast_control_frames() {
    let (users, mut receivers) = hub(&[1, 2]);
    let outcome = relay_frame(Payload::Ping(vec![1, 2]), 1, &users);
    assert_eq!(
        outcome,
        Relayed::Broadcast {
            payload: Payload::Ping(vec![1, 2]),
            report: BroadcastReport { delivered: vec![], refused: None },
        }
    );
    for (_, rx) in receivers.iter_mut() {
        assert!(drain(rx).is_empty());
    }
}

#[test]
fn relay_from_an_unregistered_sender_still_reaches_the_others() {
    let (users, mut receivers) = hub(&[2]);
    let outcome = relay_frame(text(r#"{"name":"ghost","message":"boo"}"#), 1, &users);
    let expected = text(r#"{"name":"ghost","uid":1,"message":"boo"}"#);
    assert_eq!(
        outcome,
        Relayed::Broadcast {
            payload: expected.clone(),
            report: BroadcastReport { delivered: vec![2], refused: None },
        }
    );
    assert_eq!(drain(&mut receivers[0].1), vec![expected]);
}
