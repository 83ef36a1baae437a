//! The boundary to `bytes`: the buffer that frames are read from and written
//! to. Nothing in this module is proved: each item states what the outside
//! function does.

use bytes::{BufMut, BytesMut};
use vstd::prelude::*;

verus! {

/// `bytes::BytesMut`, a growable buffer of bytes.
#[verifier::external_type_specification]
#[verifier::external_body]
pub struct ExBytesMut(BytesMut);

/// The bytes that a buffer holds, in order.
pub uninterp spec fn spec_bytes(buf: BytesMut) -> Seq<u8>;

/// `BytesMut::as_ref`: the bytes of the buffer as a slice.
#[verifier::external_body]
pub(crate) fn as_slice(buf: &BytesMut) -> (r: &[u8])
    ensures
        r@ == spec_bytes(*buf),
{
    buf.as_ref()
}

/// `BytesMut::split_to`: takes the first `at` bytes out of the buffer and
/// returns them as a buffer of their own. The outside function panics for
/// an `at` beyond the end.
#[verifier::external_body]
pub(crate) fn split_to(buf: &mut BytesMut, at: usize) -> (r: BytesMut)
    requires
        at <= spec_bytes(*old(buf)).len(),
    ensures
        spec_bytes(r) == spec_bytes(*old(buf)).subrange(0, at as int),
        spec_bytes(*final(buf)) == spec_bytes(*old(buf)).subrange(
            at as int,
            spec_bytes(*old(buf)).len() as int,
        ),
{
    buf.split_to(at)
}

/// `BufMut::put_slice` on a `BytesMut`: appends `src` to the buffer.
#[verifier::external_body]
pub(crate) fn put_slice(buf: &mut BytesMut, src: &[u8])
    ensures
        spec_bytes(*final(buf)) == spec_bytes(*old(buf)) + src@,
{
    buf.put_slice(src)
}

/// `BufMut::put_u8` on a `BytesMut`: appends one byte to the buffer.
#[verifier::external_body]
pub(crate) fn put_u8(buf: &mut BytesMut, byte: u8)
    ensures
        spec_bytes(*final(buf)) == spec_bytes(*old(buf)).push(byte),
{
    buf.put_u8(byte)
}

} // verus!
