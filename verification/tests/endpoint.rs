use futures::channel::oneshot;
use serde_json::Value;
use xrl::protocol::{
    Action, Endpoint, Event, Message, Notification, Outgoing, Polled, Progress, Request,
    Response, Server,
};

fn request(id: u64, method: &str) -> Request {
    Request { id, method: method.to_string(), params: Value::from(id) }
}

#[test]
fn a_request_is_answered_once_its_handler_is_done() {
    let mut server = Server::new();
    let call = server.process_request(request(4, "measure_width"));
    assert_eq!(call.id, Some(4));
    assert_eq!(call.method, "measure_width");
    assert_eq!(call.params, Value::from(4));
    assert!(server.send_responses(10).is_empty());

    assert!(server.complete(4, Ok(Value::from("done"))));
    assert!(!server.complete(4, Ok(Value::from("again"))));
    assert!(!server.complete(5, Err(Value::Null)));
    assert_eq!(
        server.send_responses(10),
        vec![Message::Response(Response { id: 4, result: Ok(Value::from("done")) })]
    );
    assert!(server.send_responses(10).is_empty());
}

#[test]
fn responses_leave_in_the_order_of_completion() {
    let mut server = Server::new();
    server.process_request(request(1, "a"));
    server.process_request(request(2, "b"));
    server.process_request(request(1, "a again"));
    assert!(server.complete(2, Err(Value::from("no"))));
    assert!(server.complete(1, Ok(Value::from(1))));
    assert!(server.complete(1, Ok(Value::from(2))));
    assert!(!server.complete(1, Ok(Value::from(3))));
    assert_eq!(
        server.send_responses(usize::MAX),
        vec![
            Message::Response(Response { id: 2, result: Err(Value::from("no")) }),
            Message::Response(Response { id: 1, result: Ok(Value::from(1)) }),
            Message::Response(Response { id: 1, result: Ok(Value::from(2)) }),
        ]
    );
}

#[test]
fn a_full_sink_holds_responses_back() {
    let mut server = Server::new();
    for id in 1..=3 {
        server.process_request(request(id, "m"));
        assert!(server.complete(id, Ok(Value::from(id))));
    }
    assert!(server.send_responses(0).is_empty());
    assert_eq!(
        server.send_responses(2),
        vec![
            Message::Response(Response { id: 1, result: Ok(Value::from(1)) }),
            Message::Response(Response { id: 2, result: Ok(Value::from(2)) }),
        ]
    );
    assert_eq!(
        server.send_responses(2),
        vec![Message::Response(Response { id: 3, result: Ok(Value::from(3)) })]
    );
}

#[test]
fn a_notification_never_yields_a_response() {
    let mut server = Server::new();
    for method in ["update", "no_such_method", ""] {
        let call = server.process_notification(Notification {
            method: method.to_string(),
            params: Value::Null,
        });
        assert_eq!(call.id, None);
        assert_eq!(call.method, method);
        assert!(server.send_responses(usize::MAX).is_empty());
    }
    assert!(!server.complete(0, Ok(Value::Null)));
    assert!(server.send_responses(usize::MAX).is_empty());
}

#[test]
fn the_endpoint_dispatches_by_kind() {
    let mut endpoint = Endpoint::new();
    let call = endpoint.handle_message(Message::Request(request(9, "r"))).unwrap();
    assert_eq!(call.id, Some(9));
    let call = endpoint
        .handle_message(Message::Notification(Notification {
            method: "n".to_string(),
            params: Value::Null,
        }))
        .unwrap();
    assert_eq!(call.id, None);

    let (tx, mut rx) = oneshot::channel();
    let outgoing = Outgoing {
        requests: vec![(request(0, "out"), tx)],
        requests_closed: false,
        notifications: vec![],
        notifications_closed: false,
        shutdown: Polled::Pending,
    };
    let frames = endpoint.process_outgoing(outgoing);
    assert_eq!(frames, vec![Message::Request(Request { id: 1, method: "out".to_string(), params: Value::from(0) })]);
    assert!(endpoint.handle_message(Message::Response(Response { id: 1, result: Ok(Value::from("r")) })).is_none());
    assert_eq!(rx.try_recv(), Ok(Some(Ok(Value::from("r")))));
}

#[test]
fn outgoing_traffic_is_framed_requests_first() {
    let mut endpoint = Endpoint::new();
    let (tx_r, _rx_r) = oneshot::channel();
    let (tx_n, mut rx_n) = oneshot::channel();
    let note = Notification { method: "n".to_string(), params: Value::Null };
    let outgoing = Outgoing {
        requests: vec![(request(0, "r"), tx_r)],
        requests_closed: false,
        notifications: vec![(note.clone(), tx_n)],
        notifications_closed: false,
        shutdown: Polled::Pending,
    };
    let frames = endpoint.process_outgoing(outgoing);
    assert_eq!(
        frames,
        vec![
            Message::Request(Request { id: 1, method: "r".to_string(), params: Value::from(0) }),
            Message::Notification(note),
        ]
    );
    assert_eq!(endpoint.poll(Event::OutgoingSent), Action::Flush);
    assert_eq!(endpoint.poll(Event::Flushed { done: false }), Action::Yield(Progress::NotReady));
    assert_eq!(rx_n.try_recv(), Ok(None));
    assert_eq!(endpoint.poll(Event::Flushed { done: true }), Action::Yield(Progress::NotReady));
    assert_eq!(rx_n.try_recv(), Ok(Some(())));
}

#[test]
fn a_closed_stream_cancels_what_waits() {
    let mut endpoint = Endpoint::new();
    let (tx, mut rx) = oneshot::channel();
    let outgoing = Outgoing {
        requests: vec![(request(0, "r"), tx)],
        requests_closed: false,
        notifications: vec![],
        notifications_closed: false,
        shutdown: Polled::Pending,
    };
    endpoint.process_outgoing(outgoing);
    assert_eq!(endpoint.poll(Event::StreamRead { closed: false }), Action::SendResponses);
    assert_eq!(rx.try_recv(), Ok(None));
    assert_eq!(endpoint.poll(Event::StreamRead { closed: true }), Action::Yield(Progress::Ready));
    assert_eq!(rx.try_recv(), Err(oneshot::Canceled));
}

#[test]
fn a_turn_goes_through_its_steps() {
    let mut endpoint = Endpoint::new();
    assert_eq!(endpoint.poll(Event::Wake), Action::ReadStream);
    assert_eq!(endpoint.poll(Event::StreamRead { closed: false }), Action::SendResponses);
    assert_eq!(endpoint.poll(Event::ResponsesSent { flushed: true }), Action::SendOutgoing);
    assert_eq!(endpoint.poll(Event::OutgoingSent), Action::Flush);
    assert_eq!(endpoint.poll(Event::Flushed { done: true }), Action::Yield(Progress::NotReady));
    assert_eq!(endpoint.poll(Event::Flushed { done: false }), Action::Yield(Progress::NotReady));
    // a closed stream ends the endpoint, a sink that holds responses back ends the turn
    assert_eq!(endpoint.poll(Event::StreamRead { closed: true }), Action::Yield(Progress::Ready));
    assert_eq!(
        endpoint.poll(Event::ResponsesSent { flushed: false }),
        Action::Yield(Progress::NotReady)
    );

    let outgoing = Outgoing {
        requests: vec![],
        requests_closed: false,
        notifications: vec![],
        notifications_closed: false,
        shutdown: Polled::Item(()),
    };
    assert!(endpoint.process_outgoing(outgoing).is_empty());
    assert_eq!(
        endpoint.poll(Event::ResponsesSent { flushed: false }),
        Action::Yield(Progress::NotReady)
    );
    assert_eq!(endpoint.poll(Event::Flushed { done: false }), Action::Yield(Progress::Ready));
    assert_eq!(endpoint.poll(Event::Flushed { done: true }), Action::Yield(Progress::Ready));
}

#[test]
fn after_shutdown_a_late_response_is_dropped_and_the_endpoint_ends() {
    let mut endpoint = Endpoint::new();
    let (tx, mut rx) = oneshot::channel();
    let outgoing = Outgoing {
        requests: vec![(request(0, "r"), tx)],
        requests_closed: false,
        notifications: vec![],
        notifications_closed: false,
        shutdown: Polled::Item(()),
    };
    endpoint.process_outgoing(outgoing);
    assert!(endpoint.handle_message(Message::Response(Response { id: 1, result: Ok(Value::Null) })).is_none());
    assert_eq!(rx.try_recv(), Ok(None));
    assert_eq!(endpoint.poll(Event::Flushed { done: true }), Action::Yield(Progress::Ready));
    assert_eq!(rx.try_recv(), Err(oneshot::Canceled));
}
