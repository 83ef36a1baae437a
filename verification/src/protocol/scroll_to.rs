use serde_json::Value;
use vstd::prelude::*;
use crate::json::{is_object, member, spec_json, Json};
use crate::protocol::view_id::{spec_view_id, ViewId};
use crate::protocol::wire::{spec_u64_member, u64_member};

verus! {

/// Request of the peer to bring a position of a view into sight.
#[derive(Clone, Copy, Debug, PartialEq, Eq, Structural)]
pub struct ScrollTo {
    pub line: u64,
    pub column: u64,
    pub view_id: ViewId,
}

/// The scroll request that a document describes: an object with the line
/// in `line`, the column in `col` and the view in `view_id`.
pub open spec fn spec_scroll_to(json: Json) -> Option<ScrollTo> {
    let line = spec_u64_member(json, "line"@);
    let column = spec_u64_member(json, "col"@);
    let view_id = match json.member("view_id"@) {
        Some(found) => spec_view_id(found),
        None => None,
    };
    if line is Some && column is Some && view_id is Some {
        Some(ScrollTo { line: line->0, column: column->0, view_id: view_id->0 })
    } else {
        None
    }
}

impl ScrollTo {
    /// Reads a scroll request from a JSON value.
    pub fn from_value(value: &Value) -> (r: Option<ScrollTo>)
        ensures
            r == spec_scroll_to(spec_json(*value)),
    {
        let line: u64 = match u64_member(value, "line") {
            Some(line) => line,
            None => return None,
        };
        let column: u64 = match u64_member(value, "col") {
            Some(column) => column,
            None => return None,
        };
        let view_id: ViewId = match member(value, "view_id") {
            Some(found) => match ViewId::from_value(found) {
                Some(view_id) => view_id,
                None => return None,
            },
            None => return None,
        };
        Some(ScrollTo { line, column, view_id })
    }
}

} // verus!
