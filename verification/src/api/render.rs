use vstd::prelude::*;
use crate::protocol::line::StyleDef;

verus! {

/// A line of a view as it is drawn: the part of its text that the window
/// shows, with the styles moved accordingly.
#[derive(Debug, PartialEq)]
pub struct LineRef<'a> {
    pub text: &'a str,
    pub styles: Vec<StyleDef>,
    pub cursor: &'a [u64],
    pub line_num: Option<u64>,
}

/// A character of a view as it is drawn: column and row in the window,
/// and the style it is drawn in.
#[derive(Clone, Copy, Debug, PartialEq, Eq)]
pub struct CharRef {
    pub position: (u32, u32),
    pub character: char,
    pub style_id: Option<u64>,
}

} // verus!
