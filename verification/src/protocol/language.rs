use serde_json::Value;
use vstd::prelude::*;
use crate::json::{member, spec_json, Json};
use crate::protocol::view_id::{spec_view_id, ViewId};
use crate::protocol::wire::{
    spec_string_member, spec_strings, spec_texts, string_member, strings,
};

verus! {

/// The languages the peer can highlight.
#[derive(Clone, Debug, PartialEq)]
pub struct AvailableLanguages {
    pub languages: Vec<String>,
}

impl View for AvailableLanguages {
    type V = Seq<Seq<char>>;

    /// The names of the languages.
    open spec fn view(&self) -> Seq<Seq<char>> {
        spec_texts(self.languages@)
    }
}

/// The language of a view after a change.
#[derive(Clone, Debug, PartialEq)]
pub struct LanguageChanged {
    pub view_id: ViewId,
    pub language_id: String,
}

impl View for LanguageChanged {
    type V = (ViewId, Seq<char>);

    /// The view and the name of its language.
    open spec fn view(&self) -> (ViewId, Seq<char>) {
        (self.view_id, self.language_id@)
    }
}

/// The view that a document names in its member `view_id`.
pub open spec fn spec_view_member(json: Json) -> Option<ViewId> {
    match json.member("view_id"@) {
        Some(found) => spec_view_id(found),
        None => None,
    }
}

/// Reads the view that a JSON value names in its member `view_id`.
pub fn view_member(value: &Value) -> (r: Option<ViewId>)
    ensures
        r == spec_view_member(spec_json(*value)),
{
    match member(value, "view_id") {
        Some(found) => ViewId::from_value(found),
        None => None,
    }
}

/// The names that a document lists in its member `key`.
pub open spec fn spec_strings_member(json: Json, key: Seq<char>) -> Option<Seq<Seq<char>>> {
    match json.member(key) {
        Some(found) => spec_strings(found),
        None => None,
    }
}

/// Reads the names that a JSON value lists in its member `key`.
pub fn strings_member(value: &Value, key: &str) -> (r: Option<Vec<String>>)
    ensures
        match r {
            Some(texts) => spec_strings_member(spec_json(*value), key@) == Some(spec_texts(texts@)),
            None => spec_strings_member(spec_json(*value), key@) is None,
        },
{
    match member(value, key) {
        Some(found) => strings(found),
        None => None,
    }
}

/// The languages that a document lists: its member `languages`.
pub open spec fn spec_available_languages(json: Json) -> Option<Seq<Seq<char>>> {
    spec_strings_member(json, "languages"@)
}

/// The change of language that a document describes: the view in
/// `view_id`, the language in `language_id`.
pub open spec fn spec_language_changed(json: Json) -> Option<(ViewId, Seq<char>)> {
    match (spec_view_member(json), spec_string_member(json, "language_id"@)) {
        (Some(view_id), Some(language_id)) => Some((view_id, language_id)),
        _ => None,
    }
}

impl AvailableLanguages {
    /// Reads the list of languages from a JSON value.
    pub fn from_value(value: &Value) -> (r: Option<AvailableLanguages>)
        ensures
            match r {
                Some(langs) => spec_available_languages(spec_json(*value)) == Some(langs@),
                None => spec_available_languages(spec_json(*value)) is None,
            },
    {
        match strings_member(value, "languages") {
            Some(languages) => Some(AvailableLanguages { languages }),
            None => None,
        }
    }
}

impl LanguageChanged {
    /// Reads a change of language from a JSON value.
    pub fn from_value(value: &Value) -> (r: Option<LanguageChanged>)
        ensures
            match r {
                Some(lang) => spec_language_changed(spec_json(*value)) == Some(lang@),
                None => spec_language_changed(spec_json(*value)) is None,
            },
    {
        let view_id: ViewId = match view_member(value) {
            Some(view_id) => view_id,
            None => return None,
        };
        match string_member(value, "language_id") {
            Some(language_id) => Some(LanguageChanged { view_id, language_id }),
            None => None,
        }
    }
}

} // verus!
