//! The frames of the protocol and their form on the wire.
//!
//! A frame is one JSON object on one line:
//!
//! ```text
//! request       {"id": 7, "method": "m", "params": ...}
//! notification  {"method": "m", "params": ...}
//! response      {"id": 7, "result": ...}    or    {"id": 7, "error": ...}
//! ```

use serde_json::Value;
use vstd::prelude::*;
use vstd::std_specs::convert::FromSpec;
use crate::json::{
    as_str, as_u64, from_string, from_u64, member, object, parse, print, spec_distinct_names,
    spec_json, spec_members, spec_object, spec_parse, spec_print, Category, Json, JsonNumber,
};
use crate::protocol::errors::{spec_decode_kind, DecodeError, DecodeKind};

verus! {

/// A call that owes its sender a response with the same `id`.
#[derive(Clone, Debug, PartialEq)]
pub struct Request {
    pub id: u64,
    pub method: String,
    pub params: Value,
}

/// A call that is never answered.
#[derive(Clone, Debug, PartialEq)]
pub struct Notification {
    pub method: String,
    pub params: Value,
}

/// The answer to the request with the same `id`: what the handler returned,
/// or the error it gave.
#[derive(Debug, PartialEq)]
pub struct Response {
    pub id: u64,
    pub result: Result<Value, Value>,
}

impl Clone for Response {
    fn clone(&self) -> (r: Response)
        ensures
            r == *self,
    {
        Response {
            id: self.id,
            result: match &self.result {
                Ok(value) => Ok(value.clone()),
                Err(value) => Err(value.clone()),
            },
        }
    }
}

/// One frame of the protocol.
#[derive(Clone, Debug, PartialEq)]
pub enum Message {
    Request(Request),
    Response(Response),
    Notification(Notification),
}

/// Mathematical value of a [`Message`]: the method name is a sequence of
/// characters, payloads are JSON documents.
pub enum MessageView {
    Request { id: u64, method: Seq<char>, params: Json },
    Response { id: u64, result: Result<Json, Json> },
    Notification { method: Seq<char>, params: Json },
}

/// The documents of the outcome of a handler.
pub open spec fn spec_outcome(result: Result<Value, Value>) -> Result<Json, Json> {
    match result {
        Ok(value) => Ok(spec_json(value)),
        Err(value) => Err(spec_json(value)),
    }
}

impl View for Request {
    type V = MessageView;

    open spec fn view(&self) -> MessageView {
        MessageView::Request { id: self.id, method: self.method@, params: spec_json(self.params) }
    }
}

impl View for Notification {
    type V = MessageView;

    open spec fn view(&self) -> MessageView {
        MessageView::Notification { method: self.method@, params: spec_json(self.params) }
    }
}

impl View for Response {
    type V = MessageView;

    open spec fn view(&self) -> MessageView {
        MessageView::Response { id: self.id, result: spec_outcome(self.result) }
    }
}

impl View for Message {
    type V = MessageView;

    open spec fn view(&self) -> MessageView {
        match *self {
            Message::Request(r) => r@,
            Message::Response(r) => r@,
            Message::Notification(n) => n@,
        }
    }
}

/// The values of a sequence of messages, in order.
pub open spec fn spec_messages(messages: Seq<Message>) -> Seq<MessageView> {
    messages.map_values(|m: Message| m@)
}

/// The values of a sequence with one more message are the values of the
/// sequence with one more value.
pub proof fn lemma_messages_push(messages: Seq<Message>, message: Message)
    ensures
        spec_messages(messages.push(message)) == spec_messages(messages).push(message@),
{
    assert(spec_messages(messages.push(message)) =~= spec_messages(messages).push(message@));
}

/// The JSON number of an id.
pub open spec fn spec_id(id: u64) -> Json {
    Json::Number(JsonNumber::PosInt(id))
}

/// The document that carries a message on the wire.
pub open spec fn spec_frame(message: MessageView) -> Json {
    match message {
        MessageView::Request { id, method, params } => Json::Object(
            spec_object(
                seq![("id"@, spec_id(id)), ("method"@, Json::String(method)), ("params"@, params)],
            ),
        ),
        MessageView::Notification { method, params } => Json::Object(
            spec_object(seq![("method"@, Json::String(method)), ("params"@, params)]),
        ),
        MessageView::Response { id, result: Ok(value) } => Json::Object(
            spec_object(seq![("id"@, spec_id(id)), ("result"@, value)]),
        ),
        MessageView::Response { id, result: Err(value) } => Json::Object(
            spec_object(seq![("id"@, spec_id(id)), ("error"@, value)]),
        ),
    }
}

/// The id of a document: its member `id`, where that is a non-negative
/// integer below 2^64.
pub open spec fn spec_frame_id(json: Json) -> Option<u64> {
    match json.member("id"@) {
        Some(id) => id.as_u64(),
        None => None,
    }
}

/// The method of a document: its member `method`, where that is a string.
pub open spec fn spec_frame_method(json: Json) -> Option<Seq<char>> {
    match json.member("method"@) {
        Some(method) => method.as_str(),
        None => None,
    }
}

/// The outcome that a document reports: its member `result` or its member
/// `error`, where it has exactly one of the two.
pub open spec fn spec_frame_result(json: Json) -> Option<Result<Json, Json>> {
    match (json.member("result"@), json.member("error"@)) {
        (Some(value), None) => Some(Ok(value)),
        (None, Some(value)) => Some(Err(value)),
        _ => None,
    }
}

/// The message that a document carries. A document with an id, a method
/// and parameters is a request. Otherwise one with an id and an outcome is
/// a response. Otherwise one with a method and parameters is a
/// notification. Any other document is no message.
pub open spec fn spec_message(json: Json) -> Option<MessageView> {
    let id = spec_frame_id(json);
    let method = spec_frame_method(json);
    let params = json.member("params"@);
    let result = spec_frame_result(json);
    if id is Some && method is Some && params is Some {
        Some(MessageView::Request { id: id->0, method: method->0, params: params->0 })
    } else if id is Some && result is Some {
        Some(MessageView::Response { id: id->0, result: result->0 })
    } else if method is Some && params is Some {
        Some(MessageView::Notification { method: method->0, params: params->0 })
    } else {
        None
    }
}

/// What a line decodes to: the message that its JSON document carries, or
/// the kind of error it is refused with.
pub open spec fn spec_decode(line: Seq<u8>) -> Result<MessageView, DecodeKind> {
    match spec_parse(line) {
        Ok(json) => match spec_message(json) {
            Some(message) => Ok(message),
            None => Err(DecodeKind::InvalidJson),
        },
        Err(category) => Err(spec_decode_kind(category)),
    }
}

/// The member names of the wire format are what they read, and differ.
pub proof fn lemma_member_names()
    ensures
        "id"@ != "method"@,
        "id"@ != "params"@,
        "id"@ != "result"@,
        "id"@ != "error"@,
        "method"@ != "params"@,
        "method"@ != "result"@,
        "method"@ != "error"@,
        "params"@ != "result"@,
        "params"@ != "error"@,
        "result"@ != "error"@,
{
    reveal_strlit("id");
    reveal_strlit("method");
    reveal_strlit("params");
    reveal_strlit("result");
    reveal_strlit("error");
    assert("id"@.len() == 2);
    assert("error"@.len() == 5);
    assert("method"@.len() == 6 && "method"@[0] == 'm');
    assert("params"@.len() == 6 && "params"@[0] == 'p');
    assert("result"@.len() == 6 && "result"@[0] == 'r');
}

/// A message is read back from the document that carries it.
pub proof fn lemma_frame_carries(message: MessageView)
    ensures
        spec_message(spec_frame(message)) == Some(message),
{
    lemma_member_names();
    reveal_with_fuel(spec_object, 4);
    match message {
        MessageView::Request { id, method, params } => {
            let members = seq![
                ("id"@, spec_id(id)),
                ("method"@, Json::String(method)),
                ("params"@, params),
            ];
            assert(members.drop_last() =~= seq![
                ("id"@, spec_id(id)),
                ("method"@, Json::String(method)),
            ]);
            assert(members.drop_last().drop_last() =~= seq![("id"@, spec_id(id))]);
            assert(members.drop_last().drop_last().drop_last() =~= Seq::empty());
        },
        MessageView::Notification { method, params } => {
            let members = seq![("method"@, Json::String(method)), ("params"@, params)];
            assert(members.drop_last() =~= seq![("method"@, Json::String(method))]);
            assert(members.drop_last().drop_last() =~= Seq::empty());
        },
        MessageView::Response { id, result: Ok(value) } => {
            let members = seq![("id"@, spec_id(id)), ("result"@, value)];
            assert(members.drop_last() =~= seq![("id"@, spec_id(id))]);
            assert(members.drop_last().drop_last() =~= Seq::empty());
        },
        MessageView::Response { id, result: Err(value) } => {
            let members = seq![("id"@, spec_id(id)), ("error"@, value)];
            assert(members.drop_last() =~= seq![("id"@, spec_id(id))]);
            assert(members.drop_last().drop_last() =~= Seq::empty());
        },
    }
}

/// Reads the outcome that a JSON value reports: what is in its member
/// `result` as a success, what is in its member `error` as a failure.
/// `None` for a value that has both members, or neither.
pub fn deserialize_json_rpc_result(value: &Value) -> (r: Option<Result<Value, Value>>)
    ensures
        match r {
            Some(outcome) => spec_frame_result(spec_json(*value)) == Some(spec_outcome(outcome)),
            None => spec_frame_result(spec_json(*value)) is None,
        },
{
    match (member(value, "result"), member(value, "error")) {
        (Some(found), None) => Some(Ok(found.clone())),
        (None, Some(found)) => Some(Err(found.clone())),
        _ => None,
    }
}

impl Message {
    /// Reads the message that a JSON value carries; `None` where it
    /// carries none.
    pub fn from_value(value: &Value) -> (r: Option<Message>)
        ensures
            match r {
                Some(message) => spec_message(spec_json(*value)) == Some(message@),
                None => spec_message(spec_json(*value)) is None,
            },
    {
        let id: Option<u64> = match member(value, "id") {
            Some(id) => as_u64(id),
            None => None,
        };
        let method: Option<&str> = match member(value, "method") {
            Some(method) => as_str(method),
            None => None,
        };
        let params: Option<&Value> = member(value, "params");
        let result: Option<Result<Value, Value>> = deserialize_json_rpc_result(value);
        match (id, method, params, result) {
            (Some(id), Some(method), Some(params), _) => Some(
                Message::Request(
                    Request { id, method: method.to_owned(), params: params.clone() },
                ),
            ),
            (Some(id), _, _, Some(result)) => Some(Message::Response(Response { id, result })),
            (_, Some(method), Some(params), _) => Some(
                Message::Notification(
                    Notification { method: method.to_owned(), params: params.clone() },
                ),
            ),
            _ => None,
        }
    }

    /// The JSON value that carries the message.
    pub fn to_value(&self) -> (r: Value)
        ensures
            spec_json(r) == spec_frame(self@),
    {
        proof {
            lemma_member_names();
        }
        let mut members: Vec<(String, Value)> = Vec::new();
        match self {
            Message::Request(request) => {
                members.push(("id".to_owned(), from_u64(request.id)));
                members.push(("method".to_owned(), from_string(request.method.clone())));
                members.push(("params".to_owned(), request.params.clone()));
                assert(spec_members(members@) =~= seq![
                    ("id"@, spec_id(request.id)),
                    ("method"@, Json::String(request.method@)),
                    ("params"@, spec_json(request.params)),
                ]);
            },
            Message::Notification(notification) => {
                members.push(("method".to_owned(), from_string(notification.method.clone())));
                members.push(("params".to_owned(), notification.params.clone()));
                assert(spec_members(members@) =~= seq![
                    ("method"@, Json::String(notification.method@)),
                    ("params"@, spec_json(notification.params)),
                ]);
            },
            Message::Response(response) => {
                members.push(("id".to_owned(), from_u64(response.id)));
                match &response.result {
                    Ok(value) => {
                        members.push(("result".to_owned(), value.clone()));
                        assert(spec_members(members@) =~= seq![
                            ("id"@, spec_id(response.id)),
                            ("result"@, spec_json(*value)),
                        ]);
                    },
                    Err(value) => {
                        members.push(("error".to_owned(), value.clone()));
                        assert(spec_members(members@) =~= seq![
                            ("id"@, spec_id(response.id)),
                            ("error"@, spec_json(*value)),
                        ]);
                    },
                }
            },
        }
        object(members)
    }

    /// Reads a message from a line of JSON text, the line break left out.
    pub fn decode(line: &[u8]) -> (r: Result<Message, DecodeError>)
        ensures
            match r {
                Ok(message) => spec_decode(line@) == Ok::<MessageView, DecodeKind>(message@),
                Err(error) => spec_decode(line@) == Err::<MessageView, DecodeKind>(error@),
            },
    {
        match parse(line) {
            Ok(value) => match Message::from_value(&value) {
                Some(message) => Ok(message),
                None => Err(DecodeError::InvalidJson),
            },
            Err(error) => {
                let decoded = DecodeError::from(error);
                assert(decoded == DecodeError::from_spec(error));
                Err(decoded)
            },
        }
    }

    /// The line of JSON text that carries the message, the line break
    /// left out: what the JSON library prints for the document of the
    /// frame. It fails exactly where the library does not print that
    /// document.
    pub fn to_vec(&self) -> (r: Result<Vec<u8>, serde_json::Error>)
        ensures
            match r {
                Ok(line) => spec_print(spec_frame(self@)) == Some(line@),
                Err(_) => spec_print(spec_frame(self@)) is None,
            },
    {
        let value = self.to_value();
        print(&value)
    }
}

} // verus!
