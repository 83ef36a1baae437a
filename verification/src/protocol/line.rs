use serde_json::Value;
use vstd::prelude::*;
use crate::json::{as_array, as_str, is_object, member, spec_json, spec_jsons, Json};
use crate::protocol::wire::{
    i64s, optional_u64, spec_i64s, spec_optional_u64, spec_u64s, u64s,
};

verus! {

/// A run of styled characters inside a line. `offset` is relative to the end
/// of the previous run of the same line.
#[derive(Clone, Copy, Debug, Default, PartialEq, Eq, Structural)]
pub struct StyleDef {
    pub offset: i64,
    pub length: u64,
    pub style_id: u64,
}

/// One materialized line of a view.
#[derive(Clone, Debug, Default, PartialEq)]
pub struct Line {
    pub text: String,
    pub cursor: Vec<u64>,
    pub styles: Vec<StyleDef>,
    pub line_num: Option<u64>,
}

/// Mathematical value of a [`Line`].
pub struct LineView {
    pub text: Seq<char>,
    pub cursor: Seq<u64>,
    pub styles: Seq<StyleDef>,
    pub line_num: Option<u64>,
}

impl View for Line {
    type V = LineView;

    open spec fn view(&self) -> LineView {
        LineView {
            text: self.text@,
            cursor: self.cursor@,
            styles: self.styles@,
            line_num: self.line_num,
        }
    }
}

/// The values of a sequence of lines, in order.
pub open spec fn spec_lines(lines: Seq<Line>) -> Seq<LineView> {
    lines.map_values(|l: Line| l@)
}

/// Why a flat list of integers is not a list of style runs.
#[derive(Clone, Copy, Debug, PartialEq, Eq, Structural)]
pub enum StylesError {
    /// The list does not consist of whole triples; it has this many entries.
    NotTriples(usize),
}

/// The style run that the triple at position `i` of `flat` encodes: offset,
/// length and style id, the last two reinterpreted as unsigned 64-bit values.
pub open spec fn spec_style_at(flat: Seq<i64>, i: int) -> StyleDef {
    StyleDef {
        offset: flat[3 * i],
        length: flat[3 * i + 1] as u64,
        style_id: flat[3 * i + 2] as u64,
    }
}

/// The style runs that a flat list of integers encodes, three integers for
/// each run; `None` for a list that does not consist of whole triples.
pub open spec fn spec_styles(flat: Seq<i64>) -> Option<Seq<StyleDef>> {
    if flat.len() % 3 == 0 {
        Some(Seq::new(flat.len() / 3, |i: int| spec_style_at(flat, i)))
    } else {
        None
    }
}

/// Decodes the wire form of a line's styles: a flat list of integers, three
/// for each run.
pub fn deserialize_styles(flat: &Vec<i64>) -> (r: Result<Vec<StyleDef>, StylesError>)
    ensures
        match r {
            Ok(styles) => spec_styles(flat@) == Some(styles@),
            Err(error) => spec_styles(flat@) is None && error == StylesError::NotTriples(
                flat.len(),
            ),
        },
{
    if flat.len() % 3 != 0 {
        return Err(StylesError::NotTriples(flat.len()));
    }
    let nb_styles: usize = flat.len() / 3;
    let mut styles: Vec<StyleDef> = Vec::with_capacity(nb_styles);
    let mut i: usize = 0;
    while i < nb_styles
        invariant
            nb_styles == flat.len() / 3,
            flat.len() % 3 == 0,
            i <= nb_styles,
            styles@.len() == i,
            forall|k: int| 0 <= k < i ==> styles@[k] == spec_style_at(flat@, k),
        decreases nb_styles - i,
    {
        styles.push(
            StyleDef {
                offset: flat[i * 3],
                length: flat[i * 3 + 1] as u64,
                style_id: flat[i * 3 + 2] as u64,
            },
        );
        i += 1;
    }
    assert(styles@ =~= spec_styles(flat@)->0);
    Ok(styles)
}

/// The line that a document describes. The document must be an object.
/// Text, cursors and styles may be missing, and are empty then; the number
/// may be missing or `null`. `None` for any other document.
pub open spec fn spec_line(json: Json) -> Option<LineView> {
    let text = match json.member("text"@) {
        None => Some(Seq::empty()),
        Some(found) => found.as_str(),
    };
    let cursor = match json.member("cursor"@) {
        None => Some(Seq::empty()),
        Some(found) => spec_u64s(found),
    };
    let styles = match json.member("styles"@) {
        None => Some(Seq::empty()),
        Some(found) => match spec_i64s(found) {
            Some(flat) => spec_styles(flat),
            None => None,
        },
    };
    let line_num = spec_optional_u64(json, "ln"@);
    if json is Object && text is Some && cursor is Some && styles is Some && line_num is Some {
        Some(LineView { text: text->0, cursor: cursor->0, styles: styles->0, line_num: line_num->0 })
    } else {
        None
    }
}

/// The lines that a document lists: `None` where the document is no array
/// or an item is no line.
pub open spec fn spec_line_list(json: Json) -> Option<Seq<LineView>> {
    match json.as_array() {
        Some(items) => if forall|i: int|
            0 <= i < items.len() ==> spec_line(#[trigger] items[i]) is Some {
            Some(Seq::new(items.len(), |i: int| spec_line(items[i])->0))
        } else {
            None
        },
        None => None,
    }
}

/// Reads a list of lines from a JSON value.
pub fn lines_from_value(value: &Value) -> (r: Option<Vec<Line>>)
    ensures
        match r {
            Some(lines) => spec_line_list(spec_json(*value)) == Some(spec_lines(lines@)),
            None => spec_line_list(spec_json(*value)) is None,
        },
{
    let items = match as_array(value) {
        Some(items) => items,
        None => return None,
    };
    let ghost docs = spec_jsons(items@);
    let mut lines: Vec<Line> = Vec::new();
    let mut i: usize = 0;
    while i < items.len()
        invariant
            i <= items.len(),
            docs == spec_jsons(items@),
            spec_json(*value).as_array() == Some(docs),
            lines@.len() == i,
            forall|k: int| 0 <= k < i ==> spec_line(#[trigger] docs[k]) == Some(lines@[k]@),
        decreases items.len() - i,
    {
        match Line::from_value(&items[i]) {
            Some(line) => lines.push(line),
            None => {
                assert(spec_line(docs[i as int]) is None);
                return None;
            },
        }
        i += 1;
    }
    assert(spec_line_list(spec_json(*value))->0 =~= spec_lines(lines@));
    Some(lines)
}

impl Line {
    /// Reads a line from a JSON value.
    pub fn from_value(value: &Value) -> (r: Option<Line>)
        ensures
            match r {
                Some(line) => spec_line(spec_json(*value)) == Some(line@),
                None => spec_line(spec_json(*value)) is None,
            },
    {
        if !is_object(value) {
            return None;
        }
        let text: String = match member(value, "text") {
            None => String::new(),
            Some(found) => match as_str(found) {
                Some(text) => text.to_owned(),
                None => return None,
            },
        };
        let cursor: Vec<u64> = match member(value, "cursor") {
            None => Vec::new(),
            Some(found) => match u64s(found) {
                Some(cursor) => cursor,
                None => return None,
            },
        };
        let styles: Vec<StyleDef> = match member(value, "styles") {
            None => Vec::new(),
            Some(found) => match i64s(found) {
                Some(flat) => match deserialize_styles(&flat) {
                    Ok(styles) => styles,
                    Err(_) => return None,
                },
                None => return None,
            },
        };
        let line_num: Option<u64> = match optional_u64(value, "ln") {
            Some(line_num) => line_num,
            None => return None,
        };
        Some(Line { text, cursor, styles, line_num })
    }

    /// A line with the same text, cursors, styles and number.
    pub fn duplicate(&self) -> (r: Line)
        ensures
            r@ == self@,
    {
        Line {
            text: self.text.clone(),
            cursor: self.cursor.clone(),
            styles: self.styles.clone(),
            line_num: self.line_num,
        }
    }
}

} // verus!
