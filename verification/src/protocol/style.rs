use serde_json::Value;
use vstd::prelude::*;
use crate::json::{as_bool, as_u64, spec_json, Json};
use crate::protocol::wire::{optional, spec_optional, spec_u64_member, u64_member};

verus! {

/// How the text of one style id is drawn. Colors are ARGB.
#[derive(Clone, Copy, Debug, Default, PartialEq, Eq, Structural)]
pub struct Style {
    pub id: u64,
    pub fg_color: Option<u32>,
    pub bg_color: Option<u32>,
    pub weight: Option<u32>,
    pub italic: Option<bool>,
    pub underline: Option<bool>,
}

/// The background color of a style that names none: black without
/// opacity.
pub fn default_bg_color() -> (r: u32)
    ensures
        r == 0,
{
    0
}

/// The weight of a style that names none: regular.
pub fn default_weight() -> (r: u32)
    ensures
        r == 400,
{
    400
}

/// Whether a style that does not say is italic: it is not.
pub fn default_italic() -> (r: bool)
    ensures
        !r,
{
    false
}

/// Whether a style that does not say is underlined: it is not.
pub fn default_underline() -> (r: bool)
    ensures
        !r,
{
    false
}

impl Style {
    /// The background color to draw with.
    pub fn background(&self) -> (r: u32)
        ensures
            r == match self.bg_color {
                Some(color) => color,
                None => 0,
            },
    {
        match self.bg_color {
            Some(color) => color,
            None => default_bg_color(),
        }
    }

    /// The weight to draw with.
    pub fn font_weight(&self) -> (r: u32)
        ensures
            r == match self.weight {
                Some(weight) => weight,
                None => 400,
            },
    {
        match self.weight {
            Some(weight) => weight,
            None => default_weight(),
        }
    }

    /// Whether to draw italic.
    pub fn is_italic(&self) -> (r: bool)
        ensures
            r == (self.italic == Some(true)),
    {
        match self.italic {
            Some(italic) => italic,
            None => default_italic(),
        }
    }

    /// Whether to underline.
    pub fn is_underlined(&self) -> (r: bool)
        ensures
            r == (self.underline == Some(true)),
    {
        match self.underline {
            Some(underline) => underline,
            None => default_underline(),
        }
    }
}

/// An optional 32-bit number. The outer `None` says that the member is
/// there and no such number; the inner one that it is left out.
pub open spec fn spec_optional_u32(json: Json, key: Seq<char>) -> Option<Option<u32>> {
    match spec_optional(json, key) {
        None => Some(None),
        Some(found) => match found.as_u64() {
            Some(n) => if n <= u32::MAX {
                Some(Some(n as u32))
            } else {
                None
            },
            None => None,
        },
    }
}

/// An optional truth value. The outer `None` says that the member is
/// there and no truth value; the inner one that it is left out.
pub open spec fn spec_optional_bool(json: Json, key: Seq<char>) -> Option<Option<bool>> {
    match spec_optional(json, key) {
        None => Some(None),
        Some(found) => match found.as_bool() {
            Some(b) => Some(Some(b)),
            None => None,
        },
    }
}

/// The style that a document describes: an object with the id of the
/// style in `id`. What the style sets is in the members `fg_color`,
/// `bg_color`, `weight`, `italic` and `underline`, each of which may be
/// missing or `null`.
pub open spec fn spec_style(json: Json) -> Option<Style> {
    let id = spec_u64_member(json, "id"@);
    let fg_color = spec_optional_u32(json, "fg_color"@);
    let bg_color = spec_optional_u32(json, "bg_color"@);
    let weight = spec_optional_u32(json, "weight"@);
    let italic = spec_optional_bool(json, "italic"@);
    let underline = spec_optional_bool(json, "underline"@);
    if id is Some && fg_color is Some && bg_color is Some && weight is Some && italic is Some
        && underline is Some {
        Some(
            Style {
                id: id->0,
                fg_color: fg_color->0,
                bg_color: bg_color->0,
                weight: weight->0,
                italic: italic->0,
                underline: underline->0,
            },
        )
    } else {
        None
    }
}

/// Reads an optional 32-bit number.
pub fn optional_u32(value: &Value, key: &str) -> (r: Option<Option<u32>>)
    ensures
        r == spec_optional_u32(spec_json(*value), key@),
{
    match optional(value, key) {
        None => Some(None),
        Some(found) => match as_u64(found) {
            Some(n) => if n <= u32::MAX as u64 {
                Some(Some(n as u32))
            } else {
                None
            },
            None => None,
        },
    }
}

/// Reads an optional truth value.
pub fn optional_bool(value: &Value, key: &str) -> (r: Option<Option<bool>>)
    ensures
        r == spec_optional_bool(spec_json(*value), key@),
{
    match optional(value, key) {
        None => Some(None),
        Some(found) => match as_bool(found) {
            Some(b) => Some(Some(b)),
            None => None,
        },
    }
}

impl Style {
    /// Reads a style from a JSON value.
    pub fn from_value(value: &Value) -> (r: Option<Style>)
        ensures
            r == spec_style(spec_json(*value)),
    {
        let id: u64 = match u64_member(value, "id") {
            Some(id) => id,
            None => return None,
        };
        let fg_color: Option<u32> = match optional_u32(value, "fg_color") {
            Some(found) => found,
            None => return None,
        };
        let bg_color: Option<u32> = match optional_u32(value, "bg_color") {
            Some(found) => found,
            None => return None,
        };
        let weight: Option<u32> = match optional_u32(value, "weight") {
            Some(found) => found,
            None => return None,
        };
        let italic: Option<bool> = match optional_bool(value, "italic") {
            Some(found) => found,
            None => return None,
        };
        let underline: Option<bool> = match optional_bool(value, "underline") {
            Some(found) => found,
            None => return None,
        };
        Some(Style { id, fg_color, bg_color, weight, italic, underline })
    }
}

} // verus!
