use bytes::BytesMut;
use serde_json::Value;
use xrl::protocol::{
    deserialize_json_rpc_result, find_line_end, put_line, split_line, Codec, DecodeError, EncodeError, Message, Notification, Request,
    Response,
};

fn parse(text: &str) -> Value {
    serde_json::from_str(text).unwrap()
}

fn request(id: u64, method: &str, params: &str) -> Message {
    Message::Request(Request { id, method: method.to_string(), params: parse(params) })
}

fn notification(method: &str, params: &str) -> Message {
    Message::Notification(Notification { method: method.to_string(), params: parse(params) })
}

#[test]
fn decode_needs_a_whole_line() {
    let mut buf = BytesMut::from(&b"{\"method\":\"m\",\"par"[..]);
    let r = Codec.decode(&mut buf).unwrap();
    assert_eq!(r, None);
    assert_eq!(&buf[..], b"{\"method\":\"m\",\"par");
}

#[test]
fn decode_takes_one_line_at_a_time() {
    let mut buf = BytesMut::from(
        &b"{\"id\":3,\"method\":\"new_view\",\"params\":{}}\n{\"method\":\"alert\",\"params\":{\"msg\":\"x\"}}\nrest"[..],
    );
    let first = Codec.decode(&mut buf).unwrap();
    assert_eq!(first, Some(request(3, "new_view", "{}")));
    let second = Codec.decode(&mut buf).unwrap();
    assert_eq!(second, Some(notification("alert", "{\"msg\":\"x\"}")));
    assert_eq!(Codec.decode(&mut buf).unwrap(), None);
    assert_eq!(&buf[..], b"rest");
}

#[test]
fn decode_tells_responses_apart() {
    let mut buf = BytesMut::from(&b"{\"id\":1,\"result\":[1,2]}\n{\"id\":2,\"error\":\"no\"}\n"[..]);
    assert_eq!(
        Codec.decode(&mut buf).unwrap(),
        Some(Message::Response(Response { id: 1, result: Ok(parse("[1,2]")) }))
    );
    assert_eq!(
        Codec.decode(&mut buf).unwrap(),
        Some(Message::Response(Response { id: 2, result: Err(parse("\"no\"")) }))
    );
    assert!(buf.is_empty());
}

#[test]
fn decode_reports_a_line_that_is_no_frame() {
    let mut buf = BytesMut::from(&b"XI-RPC\n{\"id\":1}\n{\"id\":1,\"result\":1,\"error\":2}\n{\"id\":\n[1]\nnext"[..]);
    assert!(matches!(Codec.decode(&mut buf), Err(DecodeError::InvalidJson)));
    assert!(matches!(Codec.decode(&mut buf), Err(DecodeError::InvalidJson)));
    assert!(matches!(Codec.decode(&mut buf), Err(DecodeError::InvalidJson)));
    assert!(matches!(Codec.decode(&mut buf), Err(DecodeError::Truncated)));
    assert!(matches!(Codec.decode(&mut buf), Err(DecodeError::InvalidJson)));
    assert_eq!(&buf[..], b"next");
}

#[test]
fn a_text_id_makes_a_notification() {
    let mut buf = BytesMut::from(&b"{\"id\":\"a\",\"method\":\"m\",\"params\":null}\n"[..]);
    assert_eq!(Codec.decode(&mut buf).unwrap(), Some(notification("m", "null")));
}

#[test]
fn encode_writes_one_line() {
    let mut buf = BytesMut::from(&b"seen\n"[..]);
    Codec.encode(request(7, "edit", "{\"chars\":\"a\\nb\"}"), &mut buf).unwrap();
    assert_eq!(
        &buf[..],
        &b"seen\n{\"id\":7,\"method\":\"edit\",\"params\":{\"chars\":\"a\\nb\"}}\n"[..]
    );
    let mut buf = BytesMut::new();
    Codec.encode(notification("client_started", "{}"), &mut buf).unwrap();
    assert_eq!(&buf[..], &b"{\"method\":\"client_started\",\"params\":{}}\n"[..]);
    let mut buf = BytesMut::new();
    Codec
        .encode(Message::Response(Response { id: 9, result: Err(parse("\"unknown\"")) }), &mut buf)
        .unwrap();
    assert_eq!(&buf[..], &b"{\"error\":\"unknown\",\"id\":9}\n"[..]);
    let r: Result<(), EncodeError> = Codec.encode(
        Message::Response(Response { id: 9, result: Ok(Value::Null) }),
        &mut buf,
    );
    assert!(r.is_ok());
}

#[test]
fn encode_then_decode_gives_the_message_back() {
    let messages = vec![
        request(1, "new_view", "{\"file_path\":\"a b\\n.txt\"}"),
        notification("scroll", "[0,18446744073709551615,-1,2.5,true,null]"),
        Message::Response(Response { id: u64::MAX, result: Ok(parse("{\"view_id\":\"view-id-1\"}")) }),
        Message::Response(Response { id: 0, result: Err(parse("[\"e\"]")) }),
    ];
    let mut buf = BytesMut::new();
    for m in messages.iter() {
        Codec.encode(m.clone(), &mut buf).unwrap();
    }
    for m in messages.iter() {
        assert_eq!(Codec.decode(&mut buf).unwrap().as_ref(), Some(m));
    }
    assert!(buf.is_empty());
}

#[test]
fn decode_then_encode_then_decode_is_the_same_message() {
    let wire = b"{ \"params\" : [1, 2] ,\"method\":\"m\", \"extra\": 1 }\n";
    let mut buf = BytesMut::from(&wire[..]);
    let first = Codec.decode(&mut buf).unwrap().unwrap();
    let mut again = BytesMut::new();
    Codec.encode(first.clone(), &mut again).unwrap();
    assert_eq!(&again[..], &b"{\"method\":\"m\",\"params\":[1,2]}\n"[..]);
    assert_eq!(Codec.decode(&mut again).unwrap(), Some(first));
}

#[test]
fn message_value_round_trip() {
    let m = request(5, "m", "[1]");
    let v = m.to_value();
    assert_eq!(v, parse("{\"id\":5,\"method\":\"m\",\"params\":[1]}"));
    assert_eq!(Message::from_value(&v), Some(m));
    assert_eq!(Message::from_value(&parse("[1]")), None);
    assert_eq!(Message::from_value(&parse("{\"id\":-1,\"result\":1}")), None);
}

#[test]
fn decode_errors_follow_the_class_of_the_json_error() {
    let eof = serde_json::from_str::<Value>("[1,").unwrap_err();
    assert!(matches!(DecodeError::from(eof), DecodeError::Truncated));
    let syntax = serde_json::from_str::<Value>("[1,]").unwrap_err();
    assert!(matches!(DecodeError::from(syntax), DecodeError::InvalidJson));
    let data = serde_json::from_str::<u8>("300").unwrap_err();
    assert!(matches!(DecodeError::from(data), DecodeError::InvalidJson));
    let io = serde_json::Error::io(std::io::Error::new(std::io::ErrorKind::Other, "gone"));
    assert!(matches!(DecodeError::from(io), DecodeError::Io(_)));
}

#[test]
fn outcomes_are_read_from_result_or_error() {
    assert_eq!(deserialize_json_rpc_result(&parse(r#"{"result":1}"#)), Some(Ok(Value::from(1))));
    assert_eq!(deserialize_json_rpc_result(&parse(r#"{"error":null}"#)), Some(Err(Value::Null)));
    assert_eq!(deserialize_json_rpc_result(&parse(r#"{"result":1,"error":2}"#)), None);
    assert_eq!(deserialize_json_rpc_result(&parse(r#"{}"#)), None);
    assert_eq!(deserialize_json_rpc_result(&parse(r#"[]"#)), None);
}

#[test]
fn some_numbers_are_not_read_back_as_printed() {
    // The JSON library prints this number as 1.0715660391465826e-75 and reads
    // that text as the number below it: a frame that holds it does not come
    // back the same.
    let number = Value::from(f64::from_bits(0x305f050c368dcc74));
    let sent = Message::Notification(Notification { method: "m".to_string(), params: number });
    let mut buf = BytesMut::new();
    Codec.encode(sent.clone(), &mut buf).unwrap();
    assert_eq!(&buf[..], &b"{\"method\":\"m\",\"params\":1.0715660391465826e-75}\n"[..]);
    let read = Codec.decode(&mut buf).unwrap().unwrap();
    assert_ne!(read, sent);
    assert_eq!(
        read,
        Message::Notification(Notification {
            method: "m".to_string(),
            params: Value::from(f64::from_bits(0x305f050c368dcc73)),
        })
    );
}

#[test]
fn lines_are_cut_and_written_at_line_breaks() {
    assert_eq!(find_line_end(b""), None);
    assert_eq!(find_line_end(b"abc"), None);
    assert_eq!(find_line_end(b"\n"), Some(0));
    assert_eq!(find_line_end(b"ab\ncd\n"), Some(2));

    let mut buf = BytesMut::from(&b"ab\n\ncd"[..]);
    assert_eq!(split_line(&mut buf).as_deref(), Some(&b"ab"[..]));
    assert_eq!(split_line(&mut buf).as_deref(), Some(&b""[..]));
    assert_eq!(split_line(&mut buf), None);
    assert_eq!(&buf[..], b"cd");

    assert!(put_line(&mut buf, b"ef"));
    assert_eq!(&buf[..], b"cdef\n");
    assert!(!put_line(&mut buf, b"g\nh"));
    assert_eq!(&buf[..], b"cdef\n");
    assert!(put_line(&mut buf, b""));
    assert_eq!(&buf[..], b"cdef\n\n");
}
