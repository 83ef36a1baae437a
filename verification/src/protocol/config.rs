use serde_json::Value;
use vstd::prelude::*;
use crate::json::{member, spec_json, Json};
use crate::protocol::findreplace::{optional_string, spec_optional_string, spec_optional_text};
use crate::protocol::language::{spec_view_member, view_member};
use crate::protocol::style::{optional_bool, spec_optional_bool};
use crate::protocol::view_id::ViewId;
use crate::protocol::wire::{
    optional, optional_u64, spec_optional, spec_optional_u64, spec_strings, spec_texts, strings,
};

verus! {

/// The settings of a view that changed; a field is `None` where the
/// setting stayed as it was.
#[derive(Clone, Debug, PartialEq)]
pub struct ConfigChanges {
    pub font_face: Option<String>,
    pub font_size: Option<u64>,
    pub line_ending: Option<String>,
    pub plugin_search_path: Option<Vec<String>>,
    pub tab_size: Option<u64>,
    pub translate_tabs_to_spaces: Option<bool>,
}

/// Mathematical value of a [`ConfigChanges`].
pub struct ConfigChangesView {
    pub font_face: Option<Seq<char>>,
    pub font_size: Option<u64>,
    pub line_ending: Option<Seq<char>>,
    pub plugin_search_path: Option<Seq<Seq<char>>>,
    pub tab_size: Option<u64>,
    pub translate_tabs_to_spaces: Option<bool>,
}

/// The texts of an optional list of strings.
pub open spec fn spec_optional_texts(texts: Option<Vec<String>>) -> Option<Seq<Seq<char>>> {
    match texts {
        Some(texts) => Some(spec_texts(texts@)),
        None => None,
    }
}

impl View for ConfigChanges {
    type V = ConfigChangesView;

    open spec fn view(&self) -> ConfigChangesView {
        ConfigChangesView {
            font_face: spec_optional_text(self.font_face),
            font_size: self.font_size,
            line_ending: spec_optional_text(self.line_ending),
            plugin_search_path: spec_optional_texts(self.plugin_search_path),
            tab_size: self.tab_size,
            translate_tabs_to_spaces: self.translate_tabs_to_spaces,
        }
    }
}

/// Changed settings with the view they belong to.
#[derive(Clone, Debug, PartialEq)]
pub struct ConfigChanged {
    pub view_id: ViewId,
    pub changes: ConfigChanges,
}

impl View for ConfigChanged {
    type V = (ViewId, ConfigChangesView);

    /// The view and its changed settings.
    open spec fn view(&self) -> (ViewId, ConfigChangesView) {
        (self.view_id, self.changes@)
    }
}

/// An optional list of texts. The outer `None` says that the member is
/// there and no list of strings; the inner one that it is left out.
pub open spec fn spec_optional_strings(json: Json, key: Seq<char>) -> Option<
    Option<Seq<Seq<char>>>,
> {
    match spec_optional(json, key) {
        None => Some(None),
        Some(found) => match spec_strings(found) {
            Some(texts) => Some(Some(texts)),
            None => None,
        },
    }
}

/// The changed settings that a document describes. Each setting may be
/// missing or `null`.
pub open spec fn spec_config_changes(json: Json) -> Option<ConfigChangesView> {
    let font_face = spec_optional_string(json, "font_face"@);
    let font_size = spec_optional_u64(json, "font_size"@);
    let line_ending = spec_optional_string(json, "line_ending"@);
    let plugin_search_path = spec_optional_strings(json, "plugin_search_path"@);
    let tab_size = spec_optional_u64(json, "tab_size"@);
    let translate_tabs_to_spaces = spec_optional_bool(json, "translate_tabs_to_spaces"@);
    if json is Object && font_face is Some && font_size is Some && line_ending is Some
        && plugin_search_path is Some && tab_size is Some && translate_tabs_to_spaces is Some {
        Some(
            ConfigChangesView {
                font_face: font_face->0,
                font_size: font_size->0,
                line_ending: line_ending->0,
                plugin_search_path: plugin_search_path->0,
                tab_size: tab_size->0,
                translate_tabs_to_spaces: translate_tabs_to_spaces->0,
            },
        )
    } else {
        None
    }
}

/// The change of settings that a document describes: the view in
/// `view_id`, the settings in `changes`.
pub open spec fn spec_config_changed(json: Json) -> Option<(ViewId, ConfigChangesView)> {
    let changes = match json.member("changes"@) {
        Some(found) => spec_config_changes(found),
        None => None,
    };
    match (spec_view_member(json), changes) {
        (Some(view_id), Some(changes)) => Some((view_id, changes)),
        _ => None,
    }
}

impl ConfigChanges {
    /// Reads changed settings from a JSON value.
    pub fn from_value(value: &Value) -> (r: Option<ConfigChanges>)
        ensures
            match r {
                Some(changes) => spec_config_changes(spec_json(*value)) == Some(changes@),
                None => spec_config_changes(spec_json(*value)) is None,
            },
    {
        if !crate::json::is_object(value) {
            return None;
        }
        let font_face: Option<String> = match optional_string(value, "font_face") {
            Some(found) => found,
            None => return None,
        };
        let font_size: Option<u64> = match optional_u64(value, "font_size") {
            Some(found) => found,
            None => return None,
        };
        let line_ending: Option<String> = match optional_string(value, "line_ending") {
            Some(found) => found,
            None => return None,
        };
        let plugin_search_path: Option<Vec<String>> = match optional(value, "plugin_search_path") {
            None => None,
            Some(found) => match strings(found) {
                Some(texts) => Some(texts),
                None => return None,
            },
        };
        let tab_size: Option<u64> = match optional_u64(value, "tab_size") {
            Some(found) => found,
            None => return None,
        };
        let translate_tabs_to_spaces: Option<bool> = match optional_bool(
            value,
            "translate_tabs_to_spaces",
        ) {
            Some(found) => found,
            None => return None,
        };
        Some(
            ConfigChanges {
                font_face,
                font_size,
                line_ending,
                plugin_search_path,
                tab_size,
                translate_tabs_to_spaces,
            },
        )
    }
}

impl ConfigChanged {
    /// Reads a change of settings from a JSON value.
    pub fn from_value(value: &Value) -> (r: Option<ConfigChanged>)
        ensures
            match r {
                Some(found) => spec_config_changed(spec_json(*value)) == Some(found@),
                None => spec_config_changed(spec_json(*value)) is None,
            },
    {
        let view_id: ViewId = match view_member(value) {
            Some(view_id) => view_id,
            None => return None,
        };
        match member(value, "changes") {
            Some(found) => match ConfigChanges::from_value(found) {
                Some(changes) => Some(ConfigChanged { view_id, changes }),
                None => None,
            },
            None => None,
        }
    }
}

} // verus!
