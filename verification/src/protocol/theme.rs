use serde_json::Value;
use syntect::highlighting::ThemeSettings;
use vstd::prelude::*;
use vstd::std_specs::cmp::PartialEqSpecImpl;
use crate::highlighting::{spec_theme_settings, theme_settings};
use crate::json::{member, spec_json, Json};
use crate::protocol::language::{spec_strings_member, strings_member};
use crate::protocol::wire::{spec_string_member, spec_texts, string_member};

verus! {

/// The themes the peer can draw with.
#[derive(Clone, Debug, PartialEq)]
pub struct AvailableThemes {
    pub themes: Vec<String>,
}

impl View for AvailableThemes {
    type V = Seq<Seq<char>>;

    /// The names of the themes.
    open spec fn view(&self) -> Seq<Seq<char>> {
        spec_texts(self.themes@)
    }
}

/// The theme of the editor after a change.
#[derive(Debug)]
pub struct ThemeChanged {
    pub name: String,
    pub theme: ThemeSettings,
}

impl View for ThemeChanged {
    type V = (Seq<char>, ThemeSettings);

    /// The name of the theme and its settings.
    open spec fn view(&self) -> (Seq<char>, ThemeSettings) {
        (self.name@, self.theme)
    }
}

/// Two theme changes are equal when they name the same theme, whatever the
/// settings say.
impl PartialEq for ThemeChanged {
    fn eq(&self, other: &Self) -> (r: bool) {
        self.name == other.name
    }
}

impl PartialEqSpecImpl for ThemeChanged {
    open spec fn obeys_eq_spec() -> bool {
        true
    }

    open spec fn eq_spec(&self, other: &Self) -> bool {
        self.name@ == other.name@
    }
}

/// The themes that a document lists: its member `themes`.
pub open spec fn spec_available_themes(json: Json) -> Option<Seq<Seq<char>>> {
    spec_strings_member(json, "themes"@)
}

/// The change of theme that a document describes: the name in `name`, the
/// settings in `theme`.
pub open spec fn spec_theme_changed(json: Json) -> Option<(Seq<char>, ThemeSettings)> {
    let theme = match json.member("theme"@) {
        Some(found) => spec_theme_settings(found),
        None => None,
    };
    match (spec_string_member(json, "name"@), theme) {
        (Some(name), Some(theme)) => Some((name, theme)),
        _ => None,
    }
}

impl AvailableThemes {
    /// Reads the list of themes from a JSON value.
    pub fn from_value(value: &Value) -> (r: Option<AvailableThemes>)
        ensures
            match r {
                Some(found) => spec_available_themes(spec_json(*value)) == Some(found@),
                None => spec_available_themes(spec_json(*value)) is None,
            },
    {
        match strings_member(value, "themes") {
            Some(themes) => Some(AvailableThemes { themes }),
            None => None,
        }
    }
}

impl ThemeChanged {
    /// Reads a change of theme from a JSON value.
    pub fn from_value(value: &Value) -> (r: Option<ThemeChanged>)
        ensures
            match r {
                Some(found) => spec_theme_changed(spec_json(*value)) == Some(found@),
                None => spec_theme_changed(spec_json(*value)) is None,
            },
    {
        let name: String = match string_member(value, "name") {
            Some(name) => name,
            None => return None,
        };
        match member(value, "theme") {
            Some(found) => match theme_settings(found) {
                Some(theme) => Some(ThemeChanged { name, theme }),
                None => None,
            },
            None => None,
        }
    }
}

} // verus!
