//! The byte containers of the `bytes` crate, as far as this crate relies on
//! them: what they hold, and the few operations the sink performs on them.
//!
//! Nothing in this module is proved. Each item states what the `bytes` crate
//! documents of the function it stands for.

use bytes::Buf;
use bytes::Bytes;
use bytes::BytesMut;
use vstd::prelude::*;

verus! {

#[verifier::external_type_specification]
#[verifier::external_body]
pub struct ExBytes(Bytes);

#[verifier::external_type_specification]
#[verifier::external_body]
pub struct ExBytesMut(BytesMut);

/// The bytes that a `Bytes` holds, first to last.
pub uninterp spec fn chunk_bytes(chunk: Bytes) -> Seq<u8>;

/// The bytes that a `BytesMut` holds, first to last.
pub uninterp spec fn buffer_bytes(buffer: BytesMut) -> Seq<u8>;

/// `BytesMut::new` returns a buffer that holds nothing.
pub assume_specification[ BytesMut::new ]() -> (buffer: BytesMut)
    ensures
        buffer_bytes(buffer) == Seq::<u8>::empty(),
;

/// `BytesMut::len` is the number of bytes held.
pub assume_specification[ BytesMut::len ](buffer: &BytesMut) -> (len: usize)
    ensures
        len == buffer_bytes(*buffer).len(),
;

/// `BytesMut::is_empty` tells whether no byte is held.
pub assume_specification[ BytesMut::is_empty ](buffer: &BytesMut) -> (empty: bool)
    ensures
        empty == (buffer_bytes(*buffer).len() == 0),
;

/// `BytesMut::extend_from_slice` appends the given bytes behind those held,
/// growing the buffer as needed. Like `Vec`, it gives up only where memory
/// does.
pub assume_specification[ BytesMut::extend_from_slice ](buffer: &mut BytesMut, extend: &[u8])
    ensures
        buffer_bytes(*final(buffer)) == buffer_bytes(*old(buffer)) + extend@,
;

/// `Buf::advance` on a `BytesMut` drops the first `cnt` bytes and keeps the
/// rest. It panics when asked to drop more than the buffer holds, which the
/// precondition rules out.
#[verifier::external_body]
pub(crate) fn advance_buffer(buffer: &mut BytesMut, cnt: usize)
    requires
        cnt <= buffer_bytes(*old(buffer)).len(),
    ensures
        buffer_bytes(*final(buffer)) == buffer_bytes(*old(buffer)).skip(cnt as int),
{
    buffer.advance(cnt)
}

/// `AsRef<[u8]>` on a `BytesMut` lends the bytes held as a slice.
#[verifier::external_body]
pub(crate) fn buffer_slice(buffer: &BytesMut) -> (slice: &[u8])
    ensures
        slice@ == buffer_bytes(*buffer),
{
    buffer.as_ref()
}

/// `AsRef<[u8]>` on a `Bytes` lends the bytes held as a slice.
#[verifier::external_body]
pub(crate) fn chunk_slice(chunk: &Bytes) -> (slice: &[u8])
    ensures
        slice@ == chunk_bytes(*chunk),
{
    chunk.as_ref()
}

} // verus!
