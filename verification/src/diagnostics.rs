//! The peer's diagnostic output: lines of text beside the protocol.

use bytes::BytesMut;
use vstd::prelude::*;
use vstd::string::StringSliceAdditionalSpecFns;
use vstd::utf8::{decode_utf8, encode_utf8_decode_utf8, valid_utf8};
use crate::buffer::{as_slice, spec_bytes};
use crate::protocol::codec::{spec_line_end, split_line};
use crate::text::from_utf8;

verus! {

/// Why a line of diagnostic output cannot be handed on.
#[derive(Clone, Copy, Debug, PartialEq, Eq, Structural)]
pub enum LineError {
    /// The line is not UTF-8.
    InvalidString,
}

/// Cuts a stream of bytes into lines of text.
#[derive(Clone, Copy, Debug, Default)]
pub struct LineCodec;

impl LineCodec {
    /// Takes the first line out of `buf` and returns its text, without
    /// the line break. While `buf` holds no complete line, nothing is
    /// taken and `Ok(None)` asks for more bytes. A line that is not UTF-8
    /// is taken out all the same and reported as an error.
    pub fn decode(&mut self, buf: &mut BytesMut) -> (r: Result<Option<String>, LineError>)
        ensures
            match spec_line_end(spec_bytes(*old(buf))) {
                None => r == Ok::<Option<String>, LineError>(None) && spec_bytes(*final(buf))
                    == spec_bytes(*old(buf)),
                Some(n) => {
                    let line = spec_bytes(*old(buf)).subrange(0, n);
                    &&& spec_bytes(*final(buf)) == spec_bytes(*old(buf)).subrange(
                        n + 1,
                        spec_bytes(*old(buf)).len() as int,
                    )
                    &&& if valid_utf8(line) {
                        r matches Ok(Some(text)) && text@ == decode_utf8(line)
                    } else {
                        r == Err::<Option<String>, LineError>(LineError::InvalidString)
                    }
                },
            },
    {
        match split_line(buf) {
            Some(line) => match from_utf8(as_slice(&line)) {
                Some(text) => {
                    proof {
                        encode_utf8_decode_utf8(text@);
                    }
                    Ok(Some(text.to_owned()))
                },
                None => Err(LineError::InvalidString),
            },
            None => Ok(None),
        }
    }
}

} // verus!
