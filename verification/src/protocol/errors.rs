use vstd::prelude::*;
use vstd::std_specs::convert::FromSpecImpl;
use crate::json::{classify, spec_category, Category};

verus! {

/// Why a line is not a frame.
#[derive(Debug)]
pub enum DecodeError {
    /// The line ends in the middle of a JSON document.
    Truncated,
    /// Bytes could not be read. The error is the JSON library's.
    Io(serde_json::Error),
    /// The line is not JSON, or not JSON in the shape of a frame.
    InvalidJson,
}

/// The kinds of [`DecodeError`].
#[derive(Clone, Copy, Debug, PartialEq, Eq, Structural)]
pub enum DecodeKind {
    Truncated,
    Io,
    InvalidJson,
}

/// The kind of decode error that a class of JSON error stands for.
pub open spec fn spec_decode_kind(category: Category) -> DecodeKind {
    match category {
        Category::Io => DecodeKind::Io,
        Category::Eof => DecodeKind::Truncated,
        Category::Data | Category::Syntax => DecodeKind::InvalidJson,
    }
}

impl View for DecodeError {
    type V = DecodeKind;

    open spec fn view(&self) -> DecodeKind {
        match self {
            DecodeError::Truncated => DecodeKind::Truncated,
            DecodeError::Io(_) => DecodeKind::Io,
            DecodeError::InvalidJson => DecodeKind::InvalidJson,
        }
    }
}

impl From<serde_json::Error> for DecodeError {
    fn from(err: serde_json::Error) -> (r: DecodeError) {
        match classify(&err) {
            Category::Io => DecodeError::Io(err),
            Category::Eof => DecodeError::Truncated,
            Category::Data | Category::Syntax => DecodeError::InvalidJson,
        }
    }
}

impl FromSpecImpl<serde_json::Error> for DecodeError {
    open spec fn obeys_from_spec() -> bool {
        true
    }

    open spec fn from_spec(err: serde_json::Error) -> DecodeError {
        match spec_category(err) {
            Category::Io => DecodeError::Io(err),
            Category::Eof => DecodeError::Truncated,
            Category::Data | Category::Syntax => DecodeError::InvalidJson,
        }
    }
}

/// Why a message could not be written as a frame.
#[derive(Debug)]
pub enum EncodeError {
    /// The JSON library could not print the message.
    Serialize(serde_json::Error),
    /// The printed message holds a line break, which would end the frame
    /// early.
    LineBreak,
}

/// Why a completion handle of the client resolved without a value.
#[derive(Clone, Copy, Debug, PartialEq, Eq, Structural)]
pub enum RpcError {
    /// The endpoint went away before the response to a request arrived.
    ResponseCanceled,
    /// The endpoint went away before a notification was flushed.
    AckCanceled,
}

} // verus!
