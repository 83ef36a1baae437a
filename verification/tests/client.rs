use futures::channel::oneshot;
use serde_json::Value;
use xrl::protocol::{InnerClient, Message, Notification, Polled, Request, Response};

fn request(method: &str) -> Request {
    Request { id: 0, method: method.to_string(), params: Value::Null }
}

#[test]
fn requests_get_ids_from_one_on() {
    let mut client = InnerClient::new();
    let (tx_a, _rx_a) = oneshot::channel();
    let (tx_b, _rx_b) = oneshot::channel();
    let frames = client.process_requests(vec![(request("a"), tx_a), (request("b"), tx_b)], false);
    assert_eq!(
        frames,
        vec![
            Message::Request(Request { id: 1, method: "a".to_string(), params: Value::Null }),
            Message::Request(Request { id: 2, method: "b".to_string(), params: Value::Null }),
        ]
    );
    let (tx_c, _rx_c) = oneshot::channel();
    let frames = client.process_requests(vec![(request("c"), tx_c)], false);
    assert_eq!(
        frames,
        vec![Message::Request(Request { id: 3, method: "c".to_string(), params: Value::Null })]
    );
    assert!(!client.is_shutting_down());
}

#[test]
fn responses_out_of_order_reach_their_requests() {
    let mut client = InnerClient::new();
    let (tx_a, mut rx_a) = oneshot::channel();
    let (tx_b, mut rx_b) = oneshot::channel();
    client.process_requests(vec![(request("a"), tx_a), (request("b"), tx_b)], false);

    client.process_response(Response { id: 2, result: Ok(Value::from("for b")) });
    assert_eq!(rx_a.try_recv(), Ok(None));
    assert_eq!(rx_b.try_recv(), Ok(Some(Ok(Value::from("for b")))));

    client.process_response(Response { id: 1, result: Err(Value::from("for a")) });
    assert_eq!(rx_a.try_recv(), Ok(Some(Err(Value::from("for a")))));
}

#[test]
fn a_response_is_delivered_once() {
    let mut client = InnerClient::new();
    let (tx, mut rx) = oneshot::channel();
    client.process_requests(vec![(request("a"), tx)], false);
    assert!(client.route_response(Response { id: 7, result: Ok(Value::Null) }).is_none());
    let (found, result) = client.route_response(Response { id: 1, result: Ok(Value::from(1)) }).unwrap();
    assert_eq!(result, Ok(Value::from(1)));
    assert!(client.route_response(Response { id: 1, result: Ok(Value::from(2)) }).is_none());
    drop(found);
    assert_eq!(rx.try_recv(), Err(oneshot::Canceled));
}

#[test]
fn shutdown_discards_late_responses() {
    let mut client = InnerClient::new();
    let (tx, mut rx) = oneshot::channel();
    client.process_requests(vec![(request("a"), tx)], false);
    client.shutdown();
    assert!(client.is_shutting_down());
    client.process_response(Response { id: 1, result: Ok(Value::Null) });
    assert_eq!(rx.try_recv(), Ok(None));
    drop(client);
    assert_eq!(rx.try_recv(), Err(oneshot::Canceled));
}

#[test]
fn notifications_are_acknowledged_in_order_after_a_flush() {
    let mut client = InnerClient::new();
    let (tx_a, mut rx_a) = oneshot::channel();
    let (tx_b, mut rx_b) = oneshot::channel();
    let a = Notification { method: "a".to_string(), params: Value::Null };
    let b = Notification { method: "b".to_string(), params: Value::from(2) };
    let frames = client.process_notifications(vec![(a.clone(), tx_a), (b.clone(), tx_b)], false);
    assert_eq!(frames, vec![Message::Notification(a), Message::Notification(b)]);
    assert_eq!(rx_a.try_recv(), Ok(None));
    assert_eq!(rx_b.try_recv(), Ok(None));
    client.acknowledge_notifications();
    assert_eq!(rx_a.try_recv(), Ok(Some(())));
    assert_eq!(rx_b.try_recv(), Ok(Some(())));
    assert!(client.take_acks().is_empty());
}

#[test]
fn closed_channels_and_signals_shut_the_client_down() {
    let mut client = InnerClient::new();
    client.process_shutdown_signals(Polled::Pending);
    assert!(!client.is_shutting_down());
    client.process_shutdown_signals(Polled::Item(()));
    assert!(client.is_shutting_down());

    let mut client = InnerClient::new();
    client.process_shutdown_signals(Polled::Closed);
    assert!(client.is_shutting_down());

    let mut client = InnerClient::new();
    assert!(client.process_requests(vec![], true).is_empty());
    assert!(client.is_shutting_down());

    let mut client = InnerClient::new();
    assert!(client.process_notifications(vec![], true).is_empty());
    assert!(client.is_shutting_down());
}

#[test]
fn cancelled_calls_resolve_as_cancelled() {
    let mut client = InnerClient::new();
    let (tx_r, mut rx_r) = oneshot::channel();
    let (tx_n, mut rx_n) = oneshot::channel();
    client.process_requests(vec![(request("a"), tx_r)], false);
    client.process_notifications(
        vec![(Notification { method: "n".to_string(), params: Value::Null }, tx_n)],
        false,
    );
    client.cancel();
    assert_eq!(rx_r.try_recv(), Err(oneshot::Canceled));
    assert_eq!(rx_n.try_recv(), Err(oneshot::Canceled));
    assert!(client.take_acks().is_empty());
    assert!(client.route_response(Response { id: 1, result: Ok(Value::Null) }).is_none());
    assert_eq!(client.last_id(), 1);
}
