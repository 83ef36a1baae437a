use serde_json::Value;
use vstd::prelude::*;
use crate::json::{spec_json, Json};
use crate::protocol::wire::{spec_u64s, u64s};

verus! {

/// A line and a column. On the wire it is a list of the two.
#[derive(Clone, Copy, Debug, PartialEq, Eq, Structural)]
pub struct Position(pub u64, pub u64);

/// The position that a document describes: a list of two numbers.
pub open spec fn spec_position(json: Json) -> Option<Position> {
    match spec_u64s(json) {
        Some(numbers) => if numbers.len() == 2 {
            Some(Position(numbers[0], numbers[1]))
        } else {
            None
        },
        None => None,
    }
}

impl Position {
    /// Reads a position from a JSON value.
    pub fn from_value(value: &Value) -> (r: Option<Position>)
        ensures
            r == spec_position(spec_json(*value)),
    {
        match u64s(value) {
            Some(numbers) => if numbers.len() == 2 {
                Some(Position(numbers[0], numbers[1]))
            } else {
                None
            },
            None => None,
        }
    }
}

} // verus!
