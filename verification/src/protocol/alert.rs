use serde_json::Value;
use vstd::prelude::*;
use crate::json::{spec_json, Json};
use crate::protocol::wire::{spec_string_member, string_member};

verus! {

/// A message of the peer for the user.
#[derive(Clone, Debug, PartialEq)]
pub struct Alert {
    pub msg: String,
}

impl View for Alert {
    type V = Seq<char>;

    /// The text of the message.
    open spec fn view(&self) -> Seq<char> {
        self.msg@
    }
}

/// The text of the alert that a document describes: its member `msg`.
pub open spec fn spec_alert(json: Json) -> Option<Seq<char>> {
    spec_string_member(json, "msg"@)
}

impl Alert {
    /// Reads an alert from a JSON value.
    pub fn from_value(value: &Value) -> (r: Option<Alert>)
        ensures
            match r {
                Some(alert) => spec_alert(spec_json(*value)) == Some(alert@),
                None => spec_alert(spec_json(*value)) is None,
            },
    {
        match string_member(value, "msg") {
            Some(msg) => Some(Alert { msg }),
            None => None,
        }
    }
}

} // verus!
