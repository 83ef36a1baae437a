//! The boundary to `syntect`: the settings of a theme, which the crate
//! reads from JSON and hands on. Nothing in this module is proved: each
//! item states what the outside function does.

use serde_json::Value;
use syntect::highlighting::ThemeSettings;
use vstd::prelude::*;
use crate::json::{spec_json, Json};

verus! {

/// `syntect`'s `ThemeSettings`: the colors of the editor's own surfaces.
/// The crate hands them on untouched.
#[verifier::external_type_specification]
#[verifier::external_body]
pub struct ExThemeSettings(ThemeSettings);

/// The settings that `serde_json::from_value` reads from a document, if it
/// reads any.
pub uninterp spec fn spec_theme_settings(json: Json) -> Option<ThemeSettings>;

/// `serde_json::from_value` at type `ThemeSettings`: reads the settings of
/// a theme. The outcome depends on the document alone.
#[verifier::external_body]
pub(crate) fn theme_settings(value: &Value) -> (r: Option<ThemeSettings>)
    ensures
        r == spec_theme_settings(spec_json(*value)),
{
    serde_json::from_value::<ThemeSettings>(value.clone()).ok()
}

} // verus!
