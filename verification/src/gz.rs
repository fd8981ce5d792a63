//! The gzip compressor of `flate2`, as far as this crate relies on it.
//!
//! Nothing in this module is proved. A [`Deflater`] holds one
//! `flate2::write::GzEncoder` that writes into a `Vec<u8>`; the functions
//! below make the calls into `flate2`, and their contracts state what its
//! source shows of them. Whether the compressor takes a chunk, and what it
//! emits, is not written out here: both are named, as functions of the level
//! and of the chunks it was given. The compressor keeps no clock, file name
//! or other state of the machine in its stream, so for one build of this
//! crate equal chunks give equal results.

use flate2::write::GzEncoder;
use flate2::Compression;
use std::io::Write;
use vstd::prelude::*;

verus! {

#[verifier::external_type_specification]
#[verifier::external_body]
pub struct ExIoError(std::io::Error);

/// A `GzEncoder<Vec<u8>>` with the default gzip header. Only
/// [`fresh_deflater`] makes one.
#[verifier::external_body]
pub struct Deflater {
    inner: GzEncoder<Vec<u8>>,
}

/// The compression level that the compressor was made with.
pub uninterp spec fn deflater_level(deflater: Deflater) -> u32;

/// The chunks that the compressor has taken so far, in the order given: one
/// entry for each `write_all` that returned `Ok`. The compressor keeps no
/// such list; this is the record of the calls made on it.
pub uninterp spec fn deflater_chunks(deflater: Deflater) -> Seq<Seq<u8>>;

/// The bytes that lie in the compressor's inner writer: emitted, and not yet
/// taken out.
pub uninterp spec fn deflater_buffer(deflater: Deflater) -> Seq<u8>;

/// Whether the compressor has completed its stream.
pub uninterp spec fn deflater_finished(deflater: Deflater) -> bool;

/// Whether `write_all(chunk)` returns `Ok` on a compressor of this level that
/// has taken `history` before.
pub uninterp spec fn gzip_write_accepted(level: u32, history: Seq<Seq<u8>>, chunk: Seq<u8>) -> bool;

/// The bytes that `write_all(chunk)` adds to the inner writer of a
/// compressor of this level that has taken `history` before.
pub uninterp spec fn gzip_write_output(level: u32, history: Seq<Seq<u8>>, chunk: Seq<u8>) -> Seq<
    u8,
>;

/// Whether `try_finish` returns `Ok` on a compressor of this level that has
/// taken `history`.
pub uninterp spec fn gzip_finish_accepted(level: u32, history: Seq<Seq<u8>>) -> bool;

/// The bytes that `try_finish` adds to the inner writer of a compressor of
/// this level that has taken `history`: what it still held back, and the
/// gzip trailer.
pub uninterp spec fn gzip_finish_output(level: u32, history: Seq<Seq<u8>>) -> Seq<u8>;

/// All that a compressor emits while it takes `chunks`, before it is
/// finished: the output of each write, in order.
pub open spec fn gzip_body(level: u32, chunks: Seq<Seq<u8>>) -> Seq<u8>
    decreases chunks.len(),
{
    if chunks.len() == 0 {
        Seq::empty()
    } else {
        gzip_body(level, chunks.drop_last()) + gzip_write_output(
            level,
            chunks.drop_last(),
            chunks.last(),
        )
    }
}

/// The complete gzip stream for `chunks`: the body, then what finishing adds.
pub open spec fn gzip_stream(level: u32, chunks: Seq<Seq<u8>>) -> Seq<u8> {
    gzip_body(level, chunks) + gzip_finish_output(level, chunks)
}

/// `GzEncoder::new(Vec::new(), Compression::new(level))`: a compressor of
/// the given level that has taken nothing and emitted nothing. (The header
/// is written with the first call that writes.) Levels run from 0 to 9.
#[verifier::external_body]
pub(crate) fn fresh_deflater(level: u32) -> (deflater: Deflater)
    requires
        level <= 9,
    ensures
        deflater_level(deflater) == level,
        deflater_chunks(deflater) == Seq::<Seq<u8>>::empty(),
        deflater_buffer(deflater) == Seq::<u8>::empty(),
        !deflater_finished(deflater),
{
    Deflater { inner: GzEncoder::new(Vec::new(), Compression::new(level)) }
}

/// `Write::write_all` on the `GzEncoder`. It panics on a finished stream,
/// which the precondition rules out. Whether it returns `Ok` depends on
/// nothing but the level and the chunks. Where it returns `Ok`, the
/// compressor has taken the whole chunk, and its inner writer has grown by
/// bytes that depend on nothing else either. Where it returns `Err`, nothing
/// more is claimed.
#[verifier::external_body]
pub(crate) fn write_chunk(deflater: &mut Deflater, chunk: &[u8]) -> (written: Result<
    (),
    std::io::Error,
>)
    requires
        !deflater_finished(*old(deflater)),
    ensures
        written is Ok <==> gzip_write_accepted(
            deflater_level(*old(deflater)),
            deflater_chunks(*old(deflater)),
            chunk@,
        ),
        written is Ok ==> deflater_level(*final(deflater)) == deflater_level(*old(deflater)),
        written is Ok ==> deflater_chunks(*final(deflater)) == deflater_chunks(
            *old(deflater),
        ).push(chunk@),
        written is Ok ==> deflater_buffer(*final(deflater)) == deflater_buffer(*old(deflater))
            + gzip_write_output(
            deflater_level(*old(deflater)),
            deflater_chunks(*old(deflater)),
            chunk@,
        ),
        written is Ok ==> !deflater_finished(*final(deflater)),
{
    deflater.inner.write_all(chunk)
}

/// `GzEncoder::try_finish` on a stream not yet finished. Whether it returns
/// `Ok` depends on nothing but the level and the chunks. Where it returns
/// `Ok`, the stream is complete: the inner writer has grown by the rest of
/// the compressed data and the trailer, and the chunks taken are as before.
/// The complete stream holds at least the ten bytes of the header and the
/// eight of the trailer. Where it returns `Err`, nothing more is claimed.
#[verifier::external_body]
pub(crate) fn finish_stream(deflater: &mut Deflater) -> (finished: Result<(), std::io::Error>)
    requires
        !deflater_finished(*old(deflater)),
    ensures
        finished is Ok <==> gzip_finish_accepted(
            deflater_level(*old(deflater)),
            deflater_chunks(*old(deflater)),
        ),
        finished is Ok ==> deflater_level(*final(deflater)) == deflater_level(*old(deflater)),
        finished is Ok ==> deflater_chunks(*final(deflater)) == deflater_chunks(*old(deflater)),
        finished is Ok ==> deflater_buffer(*final(deflater)) == deflater_buffer(*old(deflater))
            + gzip_finish_output(deflater_level(*old(deflater)), deflater_chunks(*old(deflater))),
        finished is Ok ==> deflater_finished(*final(deflater)),
        finished is Ok ==> gzip_stream(
            deflater_level(*old(deflater)),
            deflater_chunks(*old(deflater)),
        ).len() >= 18,
{
    deflater.inner.try_finish()
}

/// `GzEncoder::get_mut`: the inner writer, lent for change. Taking bytes out
/// of it changes nothing else of the compressor.
#[verifier::external_body]
pub(crate) fn inner_buffer(deflater: &mut Deflater) -> (buffer: &mut Vec<u8>)
    ensures
        buffer@ == deflater_buffer(*old(deflater)),
        deflater_buffer(*final(deflater)) == final(buffer)@,
        deflater_level(*final(deflater)) == deflater_level(*old(deflater)),
        deflater_chunks(*final(deflater)) == deflater_chunks(*old(deflater)),
        deflater_finished(*final(deflater)) == deflater_finished(*old(deflater)),
{
    deflater.inner.get_mut()
}

} // verus!
