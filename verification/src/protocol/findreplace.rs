use serde_json::Value;
use vstd::prelude::*;
use crate::json::{as_array, as_str, member, spec_json, spec_jsons, Json};
use crate::protocol::language::{spec_view_member, view_member};
use crate::protocol::style::{optional_bool, spec_optional_bool};
use crate::protocol::view_id::ViewId;
use crate::protocol::wire::{
    optional, spec_optional, spec_string_member, spec_u64_member, spec_u64s, string_member,
    u64_member, u64s,
};

verus! {

/// State of one search query of a view.
#[derive(Clone, Debug, PartialEq)]
pub struct Query {
    pub id: u64,
    pub chars: Option<String>,
    pub case_sensitive: Option<bool>,
    pub is_regex: Option<bool>,
    pub whole_words: Option<bool>,
    pub matches: u64,
    pub lines: Vec<u64>,
}

/// Mathematical value of a [`Query`].
pub struct QueryView {
    pub id: u64,
    pub chars: Option<Seq<char>>,
    pub case_sensitive: Option<bool>,
    pub is_regex: Option<bool>,
    pub whole_words: Option<bool>,
    pub matches: u64,
    pub lines: Seq<u64>,
}

/// The text of an optional string.
pub open spec fn spec_optional_text(text: Option<String>) -> Option<Seq<char>> {
    match text {
        Some(text) => Some(text@),
        None => None,
    }
}

impl View for Query {
    type V = QueryView;

    open spec fn view(&self) -> QueryView {
        QueryView {
            id: self.id,
            chars: spec_optional_text(self.chars),
            case_sensitive: self.case_sensitive,
            is_regex: self.is_regex,
            whole_words: self.whole_words,
            matches: self.matches,
            lines: self.lines@,
        }
    }
}

/// The values of a sequence of queries, in order.
pub open spec fn spec_queries(queries: Seq<Query>) -> Seq<QueryView> {
    queries.map_values(|q: Query| q@)
}

/// The search queries of a view and what they found.
#[derive(Clone, Debug, PartialEq)]
pub struct FindStatus {
    pub view_id: ViewId,
    pub queries: Vec<Query>,
}

impl View for FindStatus {
    type V = (ViewId, Seq<QueryView>);

    /// The view and its queries.
    open spec fn view(&self) -> (ViewId, Seq<QueryView>) {
        (self.view_id, spec_queries(self.queries@))
    }
}

/// The replacement text of a view.
#[derive(Clone, Debug, PartialEq)]
pub struct Status {
    pub chars: String,
    pub preserve_case: Option<bool>,
}

impl View for Status {
    type V = (Seq<char>, Option<bool>);

    /// The replacement and whether it keeps the case.
    open spec fn view(&self) -> (Seq<char>, Option<bool>) {
        (self.chars@, self.preserve_case)
    }
}

/// The replacement text of a view, with the view it belongs to.
#[derive(Clone, Debug, PartialEq)]
pub struct ReplaceStatus {
    pub view_id: ViewId,
    pub status: Status,
}

impl View for ReplaceStatus {
    type V = (ViewId, (Seq<char>, Option<bool>));

    /// The view and its replacement.
    open spec fn view(&self) -> (ViewId, (Seq<char>, Option<bool>)) {
        (self.view_id, self.status@)
    }
}

/// An optional text. The outer `None` says that the member is there and
/// no string; the inner one that it is left out.
pub open spec fn spec_optional_string(json: Json, key: Seq<char>) -> Option<Option<Seq<char>>> {
    match spec_optional(json, key) {
        None => Some(None),
        Some(found) => match found.as_str() {
            Some(text) => Some(Some(text)),
            None => None,
        },
    }
}

/// Reads an optional text.
pub fn optional_string(value: &Value, key: &str) -> (r: Option<Option<String>>)
    ensures
        match r {
            Some(found) => spec_optional_string(spec_json(*value), key@) == Some(
                spec_optional_text(found),
            ),
            None => spec_optional_string(spec_json(*value), key@) is None,
        },
{
    match optional(value, key) {
        None => Some(None),
        Some(found) => match as_str(found) {
            Some(text) => Some(Some(text.to_owned())),
            None => None,
        },
    }
}

/// The query that a document describes: its id in `id`, the number of
/// matches in `matches`, the lines of the matches in `lines`. The text
/// searched for in `chars` and the flags `case_sensitive`, `is_regex` and
/// `whole_words` may be missing or `null`.
pub open spec fn spec_query(json: Json) -> Option<QueryView> {
    let id = spec_u64_member(json, "id"@);
    let chars = spec_optional_string(json, "chars"@);
    let case_sensitive = spec_optional_bool(json, "case_sensitive"@);
    let is_regex = spec_optional_bool(json, "is_regex"@);
    let whole_words = spec_optional_bool(json, "whole_words"@);
    let matches = spec_u64_member(json, "matches"@);
    let lines = match json.member("lines"@) {
        Some(found) => spec_u64s(found),
        None => None,
    };
    if id is Some && chars is Some && case_sensitive is Some && is_regex is Some
        && whole_words is Some && matches is Some && lines is Some {
        Some(
            QueryView {
                id: id->0,
                chars: chars->0,
                case_sensitive: case_sensitive->0,
                is_regex: is_regex->0,
                whole_words: whole_words->0,
                matches: matches->0,
                lines: lines->0,
            },
        )
    } else {
        None
    }
}

/// The queries that a document lists: `None` where the document is no
/// array or an item is no query.
pub open spec fn spec_query_list(json: Json) -> Option<Seq<QueryView>> {
    match json.as_array() {
        Some(items) => if forall|i: int|
            0 <= i < items.len() ==> spec_query(#[trigger] items[i]) is Some {
            Some(Seq::new(items.len(), |i: int| spec_query(items[i])->0))
        } else {
            None
        },
        None => None,
    }
}

/// The state of a search that a document describes: the view in
/// `view_id`, the queries in `queries`.
pub open spec fn spec_find_status(json: Json) -> Option<(ViewId, Seq<QueryView>)> {
    let queries = match json.member("queries"@) {
        Some(found) => spec_query_list(found),
        None => None,
    };
    match (spec_view_member(json), queries) {
        (Some(view_id), Some(queries)) => Some((view_id, queries)),
        _ => None,
    }
}

/// The replacement that a document describes: the text in `chars`; the
/// flag `preserve_case` may be missing or `null`.
pub open spec fn spec_status(json: Json) -> Option<(Seq<char>, Option<bool>)> {
    match (spec_string_member(json, "chars"@), spec_optional_bool(json, "preserve_case"@)) {
        (Some(chars), Some(preserve_case)) => Some((chars, preserve_case)),
        _ => None,
    }
}

/// The state of a replacement that a document describes: the view in
/// `view_id`, the replacement in `status`.
pub open spec fn spec_replace_status(json: Json) -> Option<(ViewId, (Seq<char>, Option<bool>))> {
    let status = match json.member("status"@) {
        Some(found) => spec_status(found),
        None => None,
    };
    match (spec_view_member(json), status) {
        (Some(view_id), Some(status)) => Some((view_id, status)),
        _ => None,
    }
}

impl Query {
    /// Reads a query from a JSON value.
    pub fn from_value(value: &Value) -> (r: Option<Query>)
        ensures
            match r {
                Some(query) => spec_query(spec_json(*value)) == Some(query@),
                None => spec_query(spec_json(*value)) is None,
            },
    {
        let id: u64 = match u64_member(value, "id") {
            Some(id) => id,
            None => return None,
        };
        let chars: Option<String> = match optional_string(value, "chars") {
            Some(chars) => chars,
            None => return None,
        };
        let case_sensitive: Option<bool> = match optional_bool(value, "case_sensitive") {
            Some(found) => found,
            None => return None,
        };
        let is_regex: Option<bool> = match optional_bool(value, "is_regex") {
            Some(found) => found,
            None => return None,
        };
        let whole_words: Option<bool> = match optional_bool(value, "whole_words") {
            Some(found) => found,
            None => return None,
        };
        let matches: u64 = match u64_member(value, "matches") {
            Some(matches) => matches,
            None => return None,
        };
        let lines: Vec<u64> = match member(value, "lines") {
            Some(found) => match u64s(found) {
                Some(lines) => lines,
                None => return None,
            },
            None => return None,
        };
        Some(Query { id, chars, case_sensitive, is_regex, whole_words, matches, lines })
    }
}

/// Reads a list of queries from a JSON value.
pub fn queries_from_value(value: &Value) -> (r: Option<Vec<Query>>)
    ensures
        match r {
            Some(queries) => spec_query_list(spec_json(*value)) == Some(spec_queries(queries@)),
            None => spec_query_list(spec_json(*value)) is None,
        },
{
    let items = match as_array(value) {
        Some(items) => items,
        None => return None,
    };
    let ghost docs = spec_jsons(items@);
    let mut queries: Vec<Query> = Vec::new();
    let mut i: usize = 0;
    while i < items.len()
        invariant
            i <= items.len(),
            docs == spec_jsons(items@),
            spec_json(*value).as_array() == Some(docs),
            queries@.len() == i,
            forall|k: int| 0 <= k < i ==> spec_query(#[trigger] docs[k]) == Some(queries@[k]@),
        decreases items.len() - i,
    {
        match Query::from_value(&items[i]) {
            Some(query) => queries.push(query),
            None => {
                assert(spec_query(docs[i as int]) is None);
                return None;
            },
        }
        i += 1;
    }
    assert(spec_query_list(spec_json(*value))->0 =~= spec_queries(queries@));
    Some(queries)
}

impl FindStatus {
    /// Reads the state of a search from a JSON value.
    pub fn from_value(value: &Value) -> (r: Option<FindStatus>)
        ensures
            match r {
                Some(found) => spec_find_status(spec_json(*value)) == Some(found@),
                None => spec_find_status(spec_json(*value)) is None,
            },
    {
        let view_id: ViewId = match view_member(value) {
            Some(view_id) => view_id,
            None => return None,
        };
        match member(value, "queries") {
            Some(found) => match queries_from_value(found) {
                Some(queries) => Some(FindStatus { view_id, queries }),
                None => None,
            },
            None => None,
        }
    }
}

impl Status {
    /// Reads a replacement from a JSON value.
    pub fn from_value(value: &Value) -> (r: Option<Status>)
        ensures
            match r {
                Some(found) => spec_status(spec_json(*value)) == Some(found@),
                None => spec_status(spec_json(*value)) is None,
            },
    {
        let chars: String = match string_member(value, "chars") {
            Some(chars) => chars,
            None => return None,
        };
        match optional_bool(value, "preserve_case") {
            Some(preserve_case) => Some(Status { chars, preserve_case }),
            None => None,
        }
    }
}

impl ReplaceStatus {
    /// Reads the state of a replacement from a JSON value.
    pub fn from_value(value: &Value) -> (r: Option<ReplaceStatus>)
        ensures
            match r {
                Some(found) => spec_replace_status(spec_json(*value)) == Some(found@),
                None => spec_replace_status(spec_json(*value)) is None,
            },
    {
        let view_id: ViewId = match view_member(value) {
            Some(view_id) => view_id,
            None => return None,
        };
        match member(value, "status") {
            Some(found) => match Status::from_value(found) {
                Some(status) => Some(ReplaceStatus { view_id, status }),
                None => None,
            },
            None => None,
        }
    }
}

} // verus!
