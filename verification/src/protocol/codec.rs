//! Frames on a byte stream: one message on one line.

use bytes::BytesMut;
use vstd::prelude::*;
use crate::buffer::{as_slice, put_slice, put_u8, spec_bytes, split_to};
use crate::json::{spec_parse, spec_print, spec_text, Category, Json};
use crate::protocol::errors::{DecodeError, DecodeKind, EncodeError};
use crate::protocol::message::{
    lemma_frame_carries, spec_decode, spec_frame, spec_message, Message, MessageView,
};

verus! {

/// The byte that ends a frame.
pub const LINE_BREAK: u8 = 10;

/// The place of the first line break in `bytes` at or after `from`.
pub open spec fn spec_line_end_from(bytes: Seq<u8>, from: int) -> Option<int>
    decreases bytes.len() - from,
{
    if from < 0 || from >= bytes.len() {
        None
    } else if bytes[from] == LINE_BREAK {
        Some(from)
    } else {
        spec_line_end_from(bytes, from + 1)
    }
}

/// The place of the first line break in `bytes`.
pub open spec fn spec_line_end(bytes: Seq<u8>) -> Option<int> {
    spec_line_end_from(bytes, 0)
}

/// What the search from `from` finds is a line break, and the first at or
/// after `from`; it finds nothing only where there is none.
pub proof fn lemma_line_end_from(bytes: Seq<u8>, from: int)
    requires
        0 <= from,
    ensures
        match spec_line_end_from(bytes, from) {
            Some(n) => from <= n < bytes.len() && bytes[n] == LINE_BREAK && forall|k: int|
                from <= k < n ==> bytes[k] != LINE_BREAK,
            None => forall|k: int| from <= k < bytes.len() ==> bytes[k] != LINE_BREAK,
        },
    decreases bytes.len() - from,
{
    if from < bytes.len() && bytes[from] != LINE_BREAK {
        lemma_line_end_from(bytes, from + 1);
    }
}

/// The first line break is a line break inside the bytes with none before
/// it; there is no first one only where there is none.
pub proof fn lemma_line_end_is_first(bytes: Seq<u8>)
    ensures
        match spec_line_end(bytes) {
            Some(n) => 0 <= n < bytes.len() && bytes[n] == LINE_BREAK && forall|k: int|
                0 <= k < n ==> bytes[k] != LINE_BREAK,
            None => forall|k: int| 0 <= k < bytes.len() ==> bytes[k] != LINE_BREAK,
        },
{
    lemma_line_end_from(bytes, 0);
}

/// A line break at `i` with none before it is the first.
pub proof fn lemma_line_end(bytes: Seq<u8>, i: int)
    requires
        0 <= i < bytes.len(),
        bytes[i] == LINE_BREAK,
        forall|k: int| 0 <= k < i ==> bytes[k] != LINE_BREAK,
    ensures
        spec_line_end(bytes) == Some(i),
{
    lemma_line_end_is_first(bytes);
}

/// The place of the first line break in `bytes`.
pub fn find_line_end(bytes: &[u8]) -> (r: Option<usize>)
    ensures
        match r {
            Some(n) => spec_line_end(bytes@) == Some(n as int) && n < bytes.len(),
            None => spec_line_end(bytes@) is None,
        },
{
    let mut i: usize = 0;
    while i < bytes.len()
        invariant
            i <= bytes.len(),
            forall|k: int| 0 <= k < i ==> bytes@[k] != LINE_BREAK,
        decreases bytes.len() - i,
    {
        if bytes[i] == LINE_BREAK {
            proof {
                lemma_line_end(bytes@, i as int);
            }
            return Some(i);
        }
        i += 1;
    }
    proof {
        lemma_line_end_is_first(bytes@);
    }
    None
}

/// Takes the first line out of `buf`, without its line break; `None`, and
/// `buf` as it was, while no line is complete.
pub fn split_line(buf: &mut BytesMut) -> (r: Option<BytesMut>)
    ensures
        match spec_line_end(spec_bytes(*old(buf))) {
            Some(n) => {
                &&& r matches Some(line)
                &&& spec_bytes(line) == spec_bytes(*old(buf)).subrange(0, n)
                &&& spec_bytes(*final(buf)) == spec_bytes(*old(buf)).subrange(
                    n + 1,
                    spec_bytes(*old(buf)).len() as int,
                )
            },
            None => r is None && spec_bytes(*final(buf)) == spec_bytes(*old(buf)),
        },
{
    match find_line_end(as_slice(buf)) {
        Some(n) => {
            let line = split_to(buf, n);
            let _ = split_to(buf, 1);
            assert(spec_bytes(*buf) =~= spec_bytes(*old(buf)).subrange(
                n + 1,
                spec_bytes(*old(buf)).len() as int,
            ));
            Some(line)
        },
        None => None,
    }
}

/// Appends `line` and a line break to `buf`, and returns `true`. A line
/// that holds a line break would end its frame early: it is not written,
/// `buf` stays as it was, and `false` is returned.
pub fn put_line(buf: &mut BytesMut, line: &[u8]) -> (r: bool)
    ensures
        r == (spec_line_end(line@) is None),
        spec_bytes(*final(buf)) == if r {
            spec_bytes(*old(buf)) + line@.push(LINE_BREAK)
        } else {
            spec_bytes(*old(buf))
        },
{
    if find_line_end(line).is_some() {
        return false;
    }
    put_slice(buf, line);
    put_u8(buf, LINE_BREAK);
    assert(spec_bytes(*buf) =~= spec_bytes(*old(buf)) + line@.push(LINE_BREAK));
    true
}

/// Turns lines of JSON text into messages and back.
#[derive(Clone, Copy, Debug, Default)]
pub struct Codec;

impl Codec {
    /// Takes the first line out of `buf` and reads it as a message. While
    /// `buf` holds no complete line, nothing is taken and `Ok(None)`
    /// asks for more bytes. A line that is no frame is taken out all the
    /// same and reported as an error: the caller decides whether to go on
    /// with the next line.
    pub fn decode(&mut self, buf: &mut BytesMut) -> (r: Result<Option<Message>, DecodeError>)
        ensures
            match spec_line_end(spec_bytes(*old(buf))) {
                None => r matches Ok(None) && spec_bytes(*final(buf)) == spec_bytes(*old(buf)),
                Some(n) => {
                    &&& spec_bytes(*final(buf)) == spec_bytes(*old(buf)).subrange(
                        n + 1,
                        spec_bytes(*old(buf)).len() as int,
                    )
                    &&& match spec_decode(spec_bytes(*old(buf)).subrange(0, n)) {
                        Ok(message) => r matches Ok(Some(decoded)) && decoded@ == message,
                        Err(kind) => r matches Err(error) && error@ == kind,
                    }
                },
            },
    {
        match split_line(buf) {
            Some(line) => match Message::decode(as_slice(&line)) {
                Ok(message) => Ok(Some(message)),
                Err(error) => Err(error),
            },
            None => Ok(None),
        }
    }

    /// Appends the frame of `msg` to `buf`: its line of JSON text and a
    /// line break. It fails where the JSON library does not print the
    /// document of the frame, and where the printed line holds a line
    /// break. On an error `buf` stays as it was.
    pub fn encode(&mut self, msg: Message, buf: &mut BytesMut) -> (r: Result<(), EncodeError>)
        ensures
            match r {
                Ok(()) => {
                    &&& spec_print(spec_frame(msg@)) is Some
                    &&& spec_line_end(spec_text(spec_frame(msg@))) is None
                    &&& spec_bytes(*final(buf)) == spec_bytes(*old(buf)) + spec_text(
                        spec_frame(msg@),
                    ).push(LINE_BREAK)
                },
                Err(EncodeError::LineBreak) => {
                    &&& spec_print(spec_frame(msg@)) is Some
                    &&& spec_line_end(spec_text(spec_frame(msg@))) is Some
                    &&& spec_bytes(*final(buf)) == spec_bytes(*old(buf))
                },
                Err(EncodeError::Serialize(_)) => {
                    &&& spec_print(spec_frame(msg@)) is None
                    &&& spec_bytes(*final(buf)) == spec_bytes(*old(buf))
                },
            },
    {
        match msg.to_vec() {
            Ok(line) => if put_line(buf, line.as_slice()) {
                Ok(())
            } else {
                Err(EncodeError::LineBreak)
            },
            Err(error) => Err(EncodeError::Serialize(error)),
        }
    }
}

/// A line without a line break, followed by one, ends at the break.
pub proof fn lemma_frame_end(line: Seq<u8>, rest: Seq<u8>)
    requires
        spec_line_end(line) is None,
    ensures
        spec_line_end(line.push(LINE_BREAK) + rest) == Some(line.len() as int),
        (line.push(LINE_BREAK) + rest).subrange(0, line.len() as int) == line,
        (line.push(LINE_BREAK) + rest).subrange(
            line.len() as int + 1,
            (line.push(LINE_BREAK) + rest).len() as int,
        ) == rest,
{
    let all = line.push(LINE_BREAK) + rest;
    lemma_line_end_is_first(line);
    assert forall|k: int| 0 <= k < line.len() implies all[k] != LINE_BREAK by {
        assert(all[k] == line[k]);
    }
    lemma_line_end(all, line.len() as int);
    assert(all.subrange(0, line.len() as int) =~= line);
    assert(all.subrange(line.len() as int + 1, all.len() as int) =~= rest);
}

/// Round trip. Take any message, the line that `encode` writes for it,
/// and a JSON library that reads back the document it printed. Then
/// `decode`, given that line followed by anything, takes exactly the line
/// and yields the message again.
pub proof fn lemma_round_trip(message: MessageView, rest: Seq<u8>)
    requires
        spec_line_end(spec_text(spec_frame(message))) is None,
        spec_parse(spec_text(spec_frame(message))) == Ok::<Json, Category>(spec_frame(message)),
    ensures
        ({
            let line = spec_text(spec_frame(message));
            let stream = line.push(LINE_BREAK) + rest;
            &&& spec_line_end(stream) == Some(line.len() as int)
            &&& spec_decode(stream.subrange(0, line.len() as int)) == Ok::<
                MessageView,
                DecodeKind,
            >(message)
            &&& stream.subrange(line.len() as int + 1, stream.len() as int) == rest
        }),
{
    lemma_frame_end(spec_text(spec_frame(message)), rest);
    lemma_frame_carries(message);
}

/// Round trip, starting from bytes. A line that decodes to a message is
/// re-encoded to a line that decodes to the same message, given a JSON
/// library that reads back the document it printed.
pub proof fn lemma_decode_encode_decode(line: Seq<u8>, message: MessageView)
    requires
        spec_decode(line) == Ok::<MessageView, DecodeKind>(message),
        spec_parse(spec_text(spec_frame(message))) == Ok::<Json, Category>(spec_frame(message)),
    ensures
        spec_decode(spec_text(spec_frame(message))) == spec_decode(line),
{
    lemma_frame_carries(message);
}

} // verus!
