use serde_json::Value;
use vstd::prelude::*;
use crate::json::{as_array, spec_json, spec_jsons, Json};
use crate::protocol::language::{spec_strings_member, strings_member};
use crate::protocol::wire::{spec_texts, spec_u64_member, u64_member};

verus! {

/// Request of the peer to measure the width of strings, grouped by style.
#[derive(Debug, PartialEq)]
pub struct MeasureWidth(pub Vec<MeasureWidthInner>);

/// The strings to measure in one style.
#[derive(Debug, PartialEq)]
pub struct MeasureWidthInner {
    pub id: u64,
    pub strings: Vec<String>,
}

impl View for MeasureWidthInner {
    type V = (u64, Seq<Seq<char>>);

    /// The id of the style and the strings.
    open spec fn view(&self) -> (u64, Seq<Seq<char>>) {
        (self.id, spec_texts(self.strings@))
    }
}

impl View for MeasureWidth {
    type V = Seq<(u64, Seq<Seq<char>>)>;

    /// The groups of strings, in order.
    open spec fn view(&self) -> Seq<(u64, Seq<Seq<char>>)> {
        self.0@.map_values(|group: MeasureWidthInner| group@)
    }
}

/// The group of strings that a document describes: the style in `id`, the
/// strings in `strings`.
pub open spec fn spec_measure_group(json: Json) -> Option<(u64, Seq<Seq<char>>)> {
    match (spec_u64_member(json, "id"@), spec_strings_member(json, "strings"@)) {
        (Some(id), Some(strings)) => Some((id, strings)),
        _ => None,
    }
}

/// The request that a document describes: a list of groups of strings.
pub open spec fn spec_measure_width(json: Json) -> Option<Seq<(u64, Seq<Seq<char>>)>> {
    match json.as_array() {
        Some(items) => if forall|i: int|
            0 <= i < items.len() ==> spec_measure_group(#[trigger] items[i]) is Some {
            Some(Seq::new(items.len(), |i: int| spec_measure_group(items[i])->0))
        } else {
            None
        },
        None => None,
    }
}

impl MeasureWidthInner {
    /// Reads a group of strings from a JSON value.
    pub fn from_value(value: &Value) -> (r: Option<MeasureWidthInner>)
        ensures
            match r {
                Some(group) => spec_measure_group(spec_json(*value)) == Some(group@),
                None => spec_measure_group(spec_json(*value)) is None,
            },
    {
        let id: u64 = match u64_member(value, "id") {
            Some(id) => id,
            None => return None,
        };
        match strings_member(value, "strings") {
            Some(strings) => Some(MeasureWidthInner { id, strings }),
            None => None,
        }
    }
}

impl MeasureWidth {
    /// Reads a request to measure strings from a JSON value.
    pub fn from_value(value: &Value) -> (r: Option<MeasureWidth>)
        ensures
            match r {
                Some(request) => spec_measure_width(spec_json(*value)) == Some(request@),
                None => spec_measure_width(spec_json(*value)) is None,
            },
    {
        let items = match as_array(value) {
            Some(items) => items,
            None => return None,
        };
        let ghost docs = spec_jsons(items@);
        let mut groups: Vec<MeasureWidthInner> = Vec::new();
        let mut i: usize = 0;
        while i < items.len()
            invariant
                i <= items.len(),
                docs == spec_jsons(items@),
                spec_json(*value).as_array() == Some(docs),
                groups@.len() == i,
                forall|k: int|
                    0 <= k < i ==> spec_measure_group(#[trigger] docs[k]) == Some(groups@[k]@),
            decreases items.len() - i,
        {
            match MeasureWidthInner::from_value(&items[i]) {
                Some(group) => groups.push(group),
                None => {
                    assert(spec_measure_group(docs[i as int]) is None);
                    return None;
                },
            }
            i += 1;
        }
        let request = MeasureWidth(groups);
        assert(spec_measure_width(spec_json(*value))->0 =~= request@);
        Some(request)
    }
}

} // verus!
