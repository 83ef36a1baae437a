//! The boundary to `serde_json`.
//!
//! Payloads travel through the crate as `serde_json::Value`. The proofs see
//! such a value through [`spec_json`], the JSON document it holds. Parsing
//! and printing are `serde_json`'s; what they return is named by
//! [`spec_parse`] and [`spec_print`] and not described further. Nothing in
//! this module is proved: each item states what the outside function does.
//!
//! The statements hold of `serde_json` as this crate builds it, with none
//! of its optional features: numbers are `u64`, `i64` or `f64`, and the
//! members of an object are kept sorted by name, so that a value is told
//! by the document it holds.

use serde_json::Value;
use vstd::prelude::*;

verus! {

/// A JSON number, as `serde_json` tells numbers apart.
pub enum JsonNumber {
    /// A non-negative integer.
    PosInt(u64),
    /// A negative integer.
    NegInt(i64),
    /// Any other number, as the bits of its 64-bit floating-point value.
    Float(u64),
}

/// A JSON document.
pub enum Json {
    Null,
    Bool(bool),
    Number(JsonNumber),
    String(Seq<char>),
    Array(Seq<Json>),
    Object(Map<Seq<char>, Json>),
}

impl Json {
    /// The member `key` of an object. Other documents have no members.
    pub open spec fn member(self, key: Seq<char>) -> Option<Json> {
        match self {
            Json::Object(members) => if members.contains_key(key) {
                Some(members[key])
            } else {
                None
            },
            _ => None,
        }
    }

    /// The number that the document is, if it is a non-negative integer
    /// below 2^64.
    pub open spec fn as_u64(self) -> Option<u64> {
        match self {
            Json::Number(JsonNumber::PosInt(n)) => Some(n),
            _ => None,
        }
    }

    /// The text that the document is, if it is a string.
    pub open spec fn as_str(self) -> Option<Seq<char>> {
        match self {
            Json::String(s) => Some(s),
            _ => None,
        }
    }

    /// The number that the document is, if it is an integer from -2^63
    /// to 2^63 - 1.
    pub open spec fn as_i64(self) -> Option<i64> {
        match self {
            Json::Number(JsonNumber::PosInt(n)) => if n <= i64::MAX {
                Some(n as i64)
            } else {
                None
            },
            Json::Number(JsonNumber::NegInt(n)) => Some(n),
            _ => None,
        }
    }

    /// The truth value that the document is, if it is one.
    pub open spec fn as_bool(self) -> Option<bool> {
        match self {
            Json::Bool(b) => Some(b),
            _ => None,
        }
    }

    /// The items of the document, if it is an array.
    pub open spec fn as_array(self) -> Option<Seq<Json>> {
        match self {
            Json::Array(items) => Some(items),
            _ => None,
        }
    }
}

/// Why `serde_json` refuses a text, as it classifies its errors.
#[derive(Clone, Copy, Debug, PartialEq, Eq, Structural)]
pub enum Category {
    /// Bytes could not be read or written.
    Io,
    /// The text is not JSON.
    Syntax,
    /// The text is JSON of the wrong shape.
    Data,
    /// The text ends in the middle of a document.
    Eof,
}

/// `serde_json::Value`, a JSON document in memory.
#[verifier::external_type_specification]
#[verifier::external_body]
pub struct ExValue(Value);

/// `serde_json::Error`, the reason why a text was refused or a value could
/// not be printed.
#[verifier::external_type_specification]
#[verifier::external_body]
pub struct ExError(serde_json::Error);

/// The document that a value holds.
pub uninterp spec fn spec_json(value: Value) -> Json;

/// The class of an error.
pub uninterp spec fn spec_category(error: serde_json::Error) -> Category;

/// What `serde_json::from_slice` makes of a text: the document, or the
/// class of the error.
pub uninterp spec fn spec_parse(text: Seq<u8>) -> Result<Json, Category>;

/// What `serde_json::to_vec` makes of a document: the text that it
/// prints, or nothing where it fails.
pub uninterp spec fn spec_print(json: Json) -> Option<Seq<u8>>;

/// The text that `serde_json::to_vec` prints for a document, where it
/// prints one.
pub open spec fn spec_text(json: Json) -> Seq<u8> {
    spec_print(json)->0
}

/// The text that `Debug` formatting prints for a document.
pub uninterp spec fn spec_debug(json: Json) -> Seq<char>;

/// The text that `Display` formatting prints for an error.
pub uninterp spec fn spec_display(error: serde_json::Error) -> Seq<char>;

/// The object that `members` describe: each pair sets the member of its
/// name.
pub open spec fn spec_object(members: Seq<(Seq<char>, Json)>) -> Map<Seq<char>, Json>
    decreases members.len(),
{
    if members.len() == 0 {
        Map::empty()
    } else {
        spec_object(members.drop_last()).insert(members.last().0, members.last().1)
    }
}

/// The documents of a list of values.
pub open spec fn spec_jsons(values: Seq<Value>) -> Seq<Json> {
    values.map_values(|v: Value| spec_json(v))
}

/// The names and documents of a list of members.
pub open spec fn spec_members(members: Seq<(String, Value)>) -> Seq<(Seq<char>, Json)> {
    members.map_values(|m: (String, Value)| (m.0@, spec_json(m.1)))
}

/// `Value::clone`: the copy is the same value as the one it was made from.
pub assume_specification[ <Value as Clone>::clone ](value: &Value) -> (r: Value)
    ensures
        r == *value,
;

/// `serde_json::from_slice` at type `Value`: parses a text. The outcome
/// depends on the text alone.
#[verifier::external_body]
pub(crate) fn parse(text: &[u8]) -> (r: Result<Value, serde_json::Error>)
    ensures
        match r {
            Ok(value) => spec_parse(text@) == Ok::<Json, Category>(spec_json(value)),
            Err(error) => spec_parse(text@) == Err::<Json, Category>(spec_category(error)),
        },
{
    serde_json::from_slice::<Value>(text)
}

/// `serde_json::Error::classify`: the class of an error.
#[verifier::external_body]
pub(crate) fn classify(error: &serde_json::Error) -> (r: Category)
    ensures
        r == spec_category(*error),
{
    match error.classify() {
        serde_json::error::Category::Io => Category::Io,
        serde_json::error::Category::Syntax => Category::Syntax,
        serde_json::error::Category::Data => Category::Data,
        serde_json::error::Category::Eof => Category::Eof,
    }
}

/// `serde_json::to_vec` at type `Value`: prints a value as compact JSON
/// text. Whether it prints, and what, depends on the document alone.
#[verifier::external_body]
pub(crate) fn print(value: &Value) -> (r: Result<Vec<u8>, serde_json::Error>)
    ensures
        match r {
            Ok(text) => spec_print(spec_json(*value)) == Some(text@),
            Err(_) => spec_print(spec_json(*value)) is None,
        },
{
    serde_json::to_vec(value)
}

/// `Debug` formatting of a `Value`: the text depends on the document alone.
#[verifier::external_body]
pub(crate) fn debug(value: &Value) -> (r: String)
    ensures
        r@ == spec_debug(spec_json(*value)),
{
    format!("{:?}", value)
}

/// `Display` formatting of a `serde_json::Error`.
#[verifier::external_body]
pub(crate) fn display(error: &serde_json::Error) -> (r: String)
    ensures
        r@ == spec_display(*error),
{
    format!("{}", error)
}

/// `Value::get` with a string index: the member `key` of an object, and
/// nothing for a value that is no object or has no such member.
#[verifier::external_body]
pub(crate) fn member<'a>(value: &'a Value, key: &str) -> (r: Option<&'a Value>)
    ensures
        match r {
            Some(found) => spec_json(*value).member(key@) == Some(spec_json(*found)),
            None => spec_json(*value).member(key@) is None,
        },
{
    value.get(key)
}

/// `Value::as_u64`: the number, for a value that is a non-negative integer.
#[verifier::external_body]
pub(crate) fn as_u64(value: &Value) -> (r: Option<u64>)
    ensures
        r == spec_json(*value).as_u64(),
{
    value.as_u64()
}

/// `Value::as_str`: the text, for a value that is a string.
#[verifier::external_body]
pub(crate) fn as_str<'a>(value: &'a Value) -> (r: Option<&'a str>)
    ensures
        match r {
            Some(text) => spec_json(*value).as_str() == Some(text@),
            None => spec_json(*value).as_str() is None,
        },
{
    value.as_str()
}

/// `Value::as_i64`: the number, for a value that is an integer that an
/// `i64` holds.
#[verifier::external_body]
pub(crate) fn as_i64(value: &Value) -> (r: Option<i64>)
    ensures
        r == spec_json(*value).as_i64(),
{
    value.as_i64()
}

/// `Value::as_bool`: the truth value, for a value that is one.
#[verifier::external_body]
pub(crate) fn as_bool(value: &Value) -> (r: Option<bool>)
    ensures
        r == spec_json(*value).as_bool(),
{
    value.as_bool()
}

/// `Value::as_array`: the items, for a value that is an array.
#[verifier::external_body]
pub(crate) fn as_array(value: &Value) -> (r: Option<&Vec<Value>>)
    ensures
        match r {
            Some(items) => spec_json(*value).as_array() == Some(spec_jsons(items@)),
            None => spec_json(*value).as_array() is None,
        },
{
    value.as_array()
}

/// `Value::is_object`: whether the value is an object.
#[verifier::external_body]
pub(crate) fn is_object(value: &Value) -> (r: bool)
    ensures
        r == (spec_json(*value) is Object),
{
    value.is_object()
}

/// `Value::is_null`: whether the value is `null`.
#[verifier::external_body]
pub(crate) fn is_null(value: &Value) -> (r: bool)
    ensures
        r == (spec_json(*value) is Null),
{
    value.is_null()
}

/// `Value::from` at type `u64`: the number as a value.
#[verifier::external_body]
pub(crate) fn from_u64(n: u64) -> (r: Value)
    ensures
        spec_json(r) == Json::Number(JsonNumber::PosInt(n)),
{
    Value::from(n)
}

/// `Value::from` at type `bool`: the truth value as a value.
#[verifier::external_body]
pub(crate) fn from_bool(b: bool) -> (r: Value)
    ensures
        spec_json(r) == Json::Bool(b),
{
    Value::from(b)
}

/// `Value::from` at type `String`: the text as a value.
#[verifier::external_body]
pub(crate) fn from_string(text: String) -> (r: Value)
    ensures
        spec_json(r) == Json::String(text@),
{
    Value::from(text)
}

/// `Value::Array`: the array with the given items.
#[verifier::external_body]
pub(crate) fn array(items: Vec<Value>) -> (r: Value)
    ensures
        spec_json(r) == Json::Array(spec_jsons(items@)),
{
    Value::Array(items)
}

/// Whether no two members have the same name.
pub open spec fn spec_distinct_names(members: Seq<(Seq<char>, Json)>) -> bool {
    forall|i: int, j: int|
        0 <= i < j < members.len() ==> (#[trigger] members[i]).0 != (#[trigger] members[j]).0
}

/// `serde_json::Map`'s `FromIterator`, wrapped in `Value::Object`: the
/// object with the given members, whose names differ from each other.
#[verifier::external_body]
pub(crate) fn object(members: Vec<(String, Value)>) -> (r: Value)
    requires
        spec_distinct_names(spec_members(members@)),
    ensures
        spec_json(r) == Json::Object(spec_object(spec_members(members@))),
{
    Value::Object(members.into_iter().collect())
}

} // verus!
