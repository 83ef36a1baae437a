//! What a front-end does with the calls of the peer: which method names it
//! knows, and what it answers to those it does not.

use serde_json::Value;
use vstd::prelude::*;
use vstd::string::StringExecFns;
use crate::json::{from_string, spec_json, Json};
use crate::protocol::measure_width::{spec_measure_width, MeasureWidth};
use crate::protocol::notification::{spec_notification, NotificationKind, XiNotification};
use crate::text::str_eq;

verus! {

/// What is to be done about a request of the peer.
pub enum RequestAction {
    /// The peer asks for the width of these strings.
    MeasureWidth(MeasureWidth),
    /// The request is answered at once with this error.
    Reject(Value),
}

/// What is to be done about a notification of the peer.
pub enum NotificationAction {
    /// The notification is handed to the front-end.
    Deliver(XiNotification),
    /// The method names this kind of notification, and the parameters do
    /// not describe one: the notification is dropped.
    Invalid(NotificationKind),
    /// The method is unknown: the notification is dropped.
    Unknown,
}

/// The text of the error that answers a request for an unknown method.
pub open spec fn spec_unknown_method(method: Seq<char>) -> Seq<char> {
    "unknown method \""@ + method + "\""@
}

/// The error that answers a request for an unknown method: a JSON string
/// that quotes the method.
pub fn unknown_method(method: &str) -> (r: Value)
    ensures
        spec_json(r) == Json::String(spec_unknown_method(method@)),
{
    let text: String = String::from_str("unknown method \"").concat(method).concat("\"");
    from_string(text)
}

/// The text of the error that answers a request to measure strings
/// whose parameters do not say which.
pub open spec fn spec_invalid_measure_width() -> Seq<char> {
    "invalid measure_width message"@
}

/// Decides what is to be done about a request of the peer. The one method
/// that a front-end serves is `measure_width`. A request for any other
/// method is rejected with an error that names the method, and a request
/// with parameters that cannot be read with an error that says so: a
/// request is always owed a response.
pub fn handle_request(method: &str, params: &Value) -> (r: RequestAction)
    ensures
        match r {
            RequestAction::MeasureWidth(request) => method@ == "measure_width"@
                && spec_measure_width(spec_json(*params)) == Some(request@),
            RequestAction::Reject(error) => spec_json(error) == Json::String(
                if method@ == "measure_width"@ {
                    spec_invalid_measure_width()
                } else {
                    spec_unknown_method(method@)
                },
            ) && (method@ == "measure_width"@ ==> spec_measure_width(spec_json(*params)) is None),
        },
{
    if str_eq(method, "measure_width") {
        match MeasureWidth::from_value(params) {
            Some(request) => RequestAction::MeasureWidth(request),
            None => RequestAction::Reject(
                from_string(String::from_str("invalid measure_width message")),
            ),
        }
    } else {
        RequestAction::Reject(unknown_method(method))
    }
}

/// Decides what is to be done about a notification of the peer. It is
/// delivered as the kind that its method names, read from its
/// parameters. It is dropped when the method names no kind, and when the
/// parameters do not describe a notification of the kind. Nothing is ever
/// answered.
pub fn handle_notification(method: &str, params: &Value) -> (r: NotificationAction)
    ensures
        match r {
            NotificationAction::Deliver(note) => NotificationKind::spec_of(method@) matches Some(
                kind,
            ) && spec_notification(kind, spec_json(*params)) == Some(note@),
            NotificationAction::Invalid(kind) => NotificationKind::spec_of(method@) == Some(kind)
                && spec_notification(kind, spec_json(*params)) is None,
            NotificationAction::Unknown => NotificationKind::spec_of(method@) is None,
        },
{
    match NotificationKind::of(method) {
        Some(kind) => match XiNotification::from_value(kind, params) {
            Some(note) => NotificationAction::Deliver(note),
            None => NotificationAction::Invalid(kind),
        },
        None => NotificationAction::Unknown,
    }
}

} // verus!
