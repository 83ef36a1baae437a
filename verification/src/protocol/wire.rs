//! Reading the members of JSON records: numbers, texts and lists of them,
//! required or optional.

use serde_json::Value;
use vstd::prelude::*;
use crate::json::{
    as_array, as_bool, as_i64, as_str, as_u64, is_null, member, spec_json, spec_jsons, Json,
};

verus! {

/// A member that a record may leave out: absent and `null` are the same.
pub open spec fn spec_optional(json: Json, key: Seq<char>) -> Option<Json> {
    match json.member(key) {
        Some(Json::Null) => None,
        found => found,
    }
}

/// A required number: `None` where the member is missing or no `u64`.
pub open spec fn spec_u64_member(json: Json, key: Seq<char>) -> Option<u64> {
    match json.member(key) {
        Some(found) => found.as_u64(),
        None => None,
    }
}

/// A required text: `None` where the member is missing or no string.
pub open spec fn spec_string_member(json: Json, key: Seq<char>) -> Option<Seq<char>> {
    match json.member(key) {
        Some(found) => found.as_str(),
        None => None,
    }
}

/// A required truth value: `None` where the member is missing or none.
pub open spec fn spec_bool_member(json: Json, key: Seq<char>) -> Option<bool> {
    match json.member(key) {
        Some(found) => found.as_bool(),
        None => None,
    }
}

/// An optional number. The outer `None` says that the member is there
/// and no `u64`; the inner one that it is left out.
pub open spec fn spec_optional_u64(json: Json, key: Seq<char>) -> Option<Option<u64>> {
    match spec_optional(json, key) {
        None => Some(None),
        Some(found) => match found.as_u64() {
            Some(n) => Some(Some(n)),
            None => None,
        },
    }
}

/// A list of `u64` numbers: `None` where the document is no array or an
/// item is no `u64`.
pub open spec fn spec_u64s(json: Json) -> Option<Seq<u64>> {
    match json.as_array() {
        Some(items) => if forall|i: int|
            0 <= i < items.len() ==> (#[trigger] items[i]).as_u64() is Some {
            Some(Seq::new(items.len(), |i: int| items[i].as_u64()->0))
        } else {
            None
        },
        None => None,
    }
}

/// A list of `i64` numbers: `None` where the document is no array or an
/// item is no `i64`.
pub open spec fn spec_i64s(json: Json) -> Option<Seq<i64>> {
    match json.as_array() {
        Some(items) => if forall|i: int|
            0 <= i < items.len() ==> (#[trigger] items[i]).as_i64() is Some {
            Some(Seq::new(items.len(), |i: int| items[i].as_i64()->0))
        } else {
            None
        },
        None => None,
    }
}

/// A list of texts: `None` where the document is no array or an item is
/// no string.
pub open spec fn spec_strings(json: Json) -> Option<Seq<Seq<char>>> {
    match json.as_array() {
        Some(items) => if forall|i: int|
            0 <= i < items.len() ==> (#[trigger] items[i]).as_str() is Some {
            Some(Seq::new(items.len(), |i: int| items[i].as_str()->0))
        } else {
            None
        },
        None => None,
    }
}

/// Reads a required number.
pub fn u64_member(value: &Value, key: &str) -> (r: Option<u64>)
    ensures
        r == spec_u64_member(spec_json(*value), key@),
{
    match member(value, key) {
        Some(found) => as_u64(found),
        None => None,
    }
}

/// Reads a required text.
pub fn string_member(value: &Value, key: &str) -> (r: Option<String>)
    ensures
        match r {
            Some(text) => spec_string_member(spec_json(*value), key@) == Some(text@),
            None => spec_string_member(spec_json(*value), key@) is None,
        },
{
    match member(value, key) {
        Some(found) => match as_str(found) {
            Some(text) => Some(text.to_owned()),
            None => None,
        },
        None => None,
    }
}

/// Reads a required truth value.
pub fn bool_member(value: &Value, key: &str) -> (r: Option<bool>)
    ensures
        r == spec_bool_member(spec_json(*value), key@),
{
    match member(value, key) {
        Some(found) => as_bool(found),
        None => None,
    }
}

/// Finds a member that may be left out.
pub fn optional<'a>(value: &'a Value, key: &str) -> (r: Option<&'a Value>)
    ensures
        match r {
            Some(found) => spec_optional(spec_json(*value), key@) == Some(spec_json(*found)),
            None => spec_optional(spec_json(*value), key@) is None,
        },
{
    match member(value, key) {
        Some(found) => if is_null(found) {
            None
        } else {
            Some(found)
        },
        None => None,
    }
}

/// Reads an optional number.
pub fn optional_u64(value: &Value, key: &str) -> (r: Option<Option<u64>>)
    ensures
        r == spec_optional_u64(spec_json(*value), key@),
{
    match optional(value, key) {
        None => Some(None),
        Some(found) => match as_u64(found) {
            Some(n) => Some(Some(n)),
            None => None,
        },
    }
}

/// Reads a list of `u64` numbers.
pub fn u64s(value: &Value) -> (r: Option<Vec<u64>>)
    ensures
        match r {
            Some(numbers) => spec_u64s(spec_json(*value)) == Some(numbers@),
            None => spec_u64s(spec_json(*value)) is None,
        },
{
    let items = match as_array(value) {
        Some(items) => items,
        None => return None,
    };
    let ghost docs = spec_jsons(items@);
    let mut numbers: Vec<u64> = Vec::new();
    let mut i: usize = 0;
    while i < items.len()
        invariant
            i <= items.len(),
            docs == spec_jsons(items@),
            spec_json(*value).as_array() == Some(docs),
            numbers@.len() == i,
            forall|k: int| 0 <= k < i ==> (#[trigger] docs[k]).as_u64() == Some(numbers@[k]),
        decreases items.len() - i,
    {
        match as_u64(&items[i]) {
            Some(n) => numbers.push(n),
            None => {
                assert(docs[i as int].as_u64() is None);
                return None;
            },
        }
        i += 1;
    }
    assert(spec_u64s(spec_json(*value))->0 =~= numbers@);
    Some(numbers)
}

/// Reads a list of `i64` numbers.
pub fn i64s(value: &Value) -> (r: Option<Vec<i64>>)
    ensures
        match r {
            Some(numbers) => spec_i64s(spec_json(*value)) == Some(numbers@),
            None => spec_i64s(spec_json(*value)) is None,
        },
{
    let items = match as_array(value) {
        Some(items) => items,
        None => return None,
    };
    let ghost docs = spec_jsons(items@);
    let mut numbers: Vec<i64> = Vec::new();
    let mut i: usize = 0;
    while i < items.len()
        invariant
            i <= items.len(),
            docs == spec_jsons(items@),
            spec_json(*value).as_array() == Some(docs),
            numbers@.len() == i,
            forall|k: int| 0 <= k < i ==> (#[trigger] docs[k]).as_i64() == Some(numbers@[k]),
        decreases items.len() - i,
    {
        match as_i64(&items[i]) {
            Some(n) => numbers.push(n),
            None => {
                assert(docs[i as int].as_i64() is None);
                return None;
            },
        }
        i += 1;
    }
    assert(spec_i64s(spec_json(*value))->0 =~= numbers@);
    Some(numbers)
}

/// The texts of a list of strings.
pub open spec fn spec_texts(strings: Seq<String>) -> Seq<Seq<char>> {
    strings.map_values(|s: String| s@)
}

/// Reads a list of texts.
pub fn strings(value: &Value) -> (r: Option<Vec<String>>)
    ensures
        match r {
            Some(texts) => spec_strings(spec_json(*value)) == Some(spec_texts(texts@)),
            None => spec_strings(spec_json(*value)) is None,
        },
{
    let items = match as_array(value) {
        Some(items) => items,
        None => return None,
    };
    let ghost docs = spec_jsons(items@);
    let mut texts: Vec<String> = Vec::new();
    let mut i: usize = 0;
    while i < items.len()
        invariant
            i <= items.len(),
            docs == spec_jsons(items@),
            spec_json(*value).as_array() == Some(docs),
            texts@.len() == i,
            forall|k: int| 0 <= k < i ==> (#[trigger] docs[k]).as_str() == Some(texts@[k]@),
        decreases items.len() - i,
    {
        match as_str(&items[i]) {
            Some(text) => texts.push(text.to_owned()),
            None => {
                assert(docs[i as int].as_str() is None);
                return None;
            },
        }
        i += 1;
    }
    assert(spec_strings(spec_json(*value))->0 =~= spec_texts(texts@));
    Some(texts)
}

} // verus!
