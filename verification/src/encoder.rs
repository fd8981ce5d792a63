//! The block encoder: one gzip compressor per stream, which takes chunks
//! and hands back, at once, whatever compressed bytes are ready.

use crate::buffer::buffer_bytes;
use crate::buffer::chunk_bytes;
use crate::buffer::chunk_slice;
use crate::gz::deflater_buffer;
use crate::gz::deflater_chunks;
use crate::gz::deflater_finished;
use crate::gz::deflater_level;
use crate::gz::finish_stream;
use crate::gz::fresh_deflater;
use crate::gz::gzip_body;
use crate::gz::gzip_finish_accepted;
use crate::gz::gzip_finish_output;
use crate::gz::gzip_stream;
use crate::gz::gzip_write_accepted;
use crate::gz::gzip_write_output;
use crate::gz::inner_buffer;
use crate::gz::write_chunk;
use crate::gz::Deflater;
use bytes::Bytes;
use bytes::BytesMut;
use vstd::prelude::*;

verus! {

/// The compression level of every encoder: the highest, which gives the
/// smallest output.
pub const BEST_LEVEL: u32 = 9;

/// Where an encoder stands in its life.
#[derive(Clone, Copy, Debug, PartialEq, Eq, Structural)]
pub enum EncoderPhase {
    /// Chunks are taken.
    Active,
    /// The stream is complete; nothing more is taken.
    Finished,
    /// The compressor reported a failure; the stream is lost.
    Faulted,
}

/// Why an encoder refused a call.
#[derive(Clone, Copy, Debug, PartialEq, Eq, Structural)]
pub enum EncoderError {
    /// A chunk was offered after the stream was finished.
    Finished,
    /// The compressor reported a failure, now or earlier.
    Fault,
}

/// Whether the compressor takes `chunk` after `history`.
pub open spec fn takes(history: Seq<Seq<u8>>, chunk: Seq<u8>) -> bool {
    gzip_write_accepted(BEST_LEVEL, history, chunk)
}

/// The compressed bytes that are ready once `chunk` is taken after
/// `history`.
pub open spec fn output(history: Seq<Seq<u8>>, chunk: Seq<u8>) -> Seq<u8> {
    gzip_write_output(BEST_LEVEL, history, chunk)
}

/// Whether the compressor completes the stream for `history`.
pub open spec fn completes(history: Seq<Seq<u8>>) -> bool {
    gzip_finish_accepted(BEST_LEVEL, history)
}

/// The last bytes of the stream for `history`: what the compressor held
/// back, and the trailer.
pub open spec fn tail(history: Seq<Seq<u8>>) -> Seq<u8> {
    gzip_finish_output(BEST_LEVEL, history)
}

/// All that is ready while `chunks` are taken: the output for each, in
/// order.
pub open spec fn body(chunks: Seq<Seq<u8>>) -> Seq<u8> {
    gzip_body(BEST_LEVEL, chunks)
}

/// The complete gzip stream for `chunks`: the body, then the tail.
pub open spec fn stream(chunks: Seq<Seq<u8>>) -> Seq<u8> {
    gzip_stream(BEST_LEVEL, chunks)
}

/// Taking one more chunk extends the body by the output for that chunk.
pub proof fn lemma_body_push(chunks: Seq<Seq<u8>>, chunk: Seq<u8>)
    ensures
        body(chunks.push(chunk)) == body(chunks) + output(chunks, chunk),
{
    assert(chunks.push(chunk).drop_last() == chunks);
    assert(chunks.push(chunk).last() == chunk);
}

/// A gzip encoder at the best compression level.
///
/// Between calls the compressor's own buffer is empty: every call hands over
/// all that was produced.
pub struct GzipEncoder {
    deflater: Deflater,
    phase: EncoderPhase,
    taken: Ghost<Seq<Seq<u8>>>,
}

impl GzipEncoder {
    /// The encoder's invariant.
    pub closed spec fn wf(&self) -> bool {
        match self.phase {
            EncoderPhase::Active => {
                &&& deflater_level(self.deflater) == BEST_LEVEL
                &&& !deflater_finished(self.deflater)
                &&& deflater_buffer(self.deflater).len() == 0
                &&& deflater_chunks(self.deflater) == self.taken@
            },
            EncoderPhase::Finished => stream(self.taken@).len() >= 18,
            EncoderPhase::Faulted => true,
        }
    }

    /// The chunks taken so far, in order.
    pub closed spec fn chunks(&self) -> Seq<Seq<u8>> {
        self.taken@
    }

    /// The phase, in contracts.
    pub closed spec fn spec_phase(&self) -> EncoderPhase {
        self.phase
    }

    /// The phase the encoder is in.
    #[verifier::when_used_as_spec(spec_phase)]
    pub fn phase(&self) -> (phase: EncoderPhase)
        ensures
            phase == self.spec_phase(),
    {
        self.phase
    }

    /// The stream of a finished encoder holds at least a header and a
    /// trailer, eighteen bytes.
    pub proof fn lemma_finished_stream_len(&self)
        requires
            self.wf(),
            self.phase() == EncoderPhase::Finished,
        ensures
            stream(self.chunks()).len() >= 18,
    {
    }

    /// A fresh encoder: active, with nothing taken.
    pub fn new() -> (encoder: GzipEncoder)
        ensures
            encoder.wf(),
            encoder.phase() == EncoderPhase::Active,
            encoder.chunks() == Seq::<Seq<u8>>::empty(),
    {
        GzipEncoder {
            deflater: fresh_deflater(BEST_LEVEL),
            phase: EncoderPhase::Active,
            taken: Ghost(Seq::empty()),
        }
    }

    /// Records what the compressor reported of a step. On `Err` the encoder
    /// is faulted from now on, whatever it was; on `Ok` nothing changes.
    pub fn settle(&mut self, outcome: Result<(), std::io::Error>) -> (settled: Result<
        (),
        EncoderError,
    >)
        ensures
            outcome is Ok ==> settled is Ok && *final(self) == *old(self),
            outcome is Err ==> settled == Err::<(), EncoderError>(EncoderError::Fault),
            outcome is Err ==> final(self).phase() == EncoderPhase::Faulted,
            final(self).chunks() == old(self).chunks(),
            outcome is Err || old(self).wf() ==> final(self).wf(),
    {
        match outcome {
            Ok(()) => Ok(()),
            Err(_) => {
                self.phase = EncoderPhase::Faulted;
                Err(EncoderError::Fault)
            },
        }
    }

    /// Feeds one chunk to the compressor and appends to `dst` the compressed
    /// bytes that are ready, which may be none.
    ///
    /// A finished encoder refuses with `Finished`, a faulted one with
    /// `Fault`; neither changes anything. An active encoder succeeds exactly
    /// if the compressor takes the chunk; if not, the encoder is faulted,
    /// and `dst` is as it was.
    pub fn encode(&mut self, item: Bytes, dst: &mut BytesMut) -> (encoded: Result<
        (),
        EncoderError,
    >)
        requires
            old(self).wf(),
        ensures
            final(self).wf(),
            encoded is Ok <==> old(self).phase() == EncoderPhase::Active && takes(
                old(self).chunks(),
                chunk_bytes(item),
            ),
            encoded == Err::<(), EncoderError>(EncoderError::Finished) <==> old(self).phase()
                == EncoderPhase::Finished,
            encoded is Ok ==> {
                &&& final(self).phase() == EncoderPhase::Active
                &&& final(self).chunks() == old(self).chunks().push(chunk_bytes(item))
                &&& buffer_bytes(*final(dst)) == buffer_bytes(*old(dst)) + output(
                    old(self).chunks(),
                    chunk_bytes(item),
                )
            },
            encoded is Err ==> {
                &&& final(self).chunks() == old(self).chunks()
                &&& buffer_bytes(*final(dst)) == buffer_bytes(*old(dst))
            },
            old(self).phase() != EncoderPhase::Active ==> *final(self) == *old(self),
            encoded == Err::<(), EncoderError>(EncoderError::Fault) ==> final(self).phase()
                == EncoderPhase::Faulted,
    {
        match self.phase {
            EncoderPhase::Finished => { return Err(EncoderError::Finished); },
            EncoderPhase::Faulted => { return Err(EncoderError::Fault); },
            EncoderPhase::Active => {},
        }
        let written = write_chunk(&mut self.deflater, chunk_slice(&item));
        match self.settle(written) {
            Ok(()) => {
                let produced = inner_buffer(&mut self.deflater);
                dst.extend_from_slice(produced.as_slice());
                produced.clear();
                proof {
                    self.taken@ = self.taken@.push(chunk_bytes(item));
                }
                Ok(())
            },
            Err(fault) => Err(fault),
        }
    }

    /// Completes the stream and returns its last bytes: what the compressor
    /// still held back, and the gzip trailer.
    ///
    /// On a finished encoder this returns no bytes and changes nothing; on a
    /// faulted one it fails with `Fault` and changes nothing. An active
    /// encoder succeeds exactly if the compressor completes the stream, and
    /// is then finished; if not, it is faulted.
    pub fn finish(&mut self) -> (finished: Result<Vec<u8>, EncoderError>)
        requires
            old(self).wf(),
        ensures
            final(self).wf(),
            final(self).chunks() == old(self).chunks(),
            finished is Ok <==> old(self).phase() == EncoderPhase::Finished || (old(self).phase()
                == EncoderPhase::Active && completes(old(self).chunks())),
            old(self).phase() != EncoderPhase::Active ==> *final(self) == *old(self),
            match finished {
                Ok(last) => {
                    &&& final(self).phase() == EncoderPhase::Finished
                    &&& old(self).phase() == EncoderPhase::Active ==> last@ == tail(
                        old(self).chunks(),
                    )
                    &&& old(self).phase() == EncoderPhase::Finished ==> last@.len() == 0
                    &&& stream(old(self).chunks()).len() >= 18
                },
                Err(error) => {
                    &&& error == EncoderError::Fault
                    &&& final(self).phase() == EncoderPhase::Faulted
                },
            },
    {
        match self.phase {
            EncoderPhase::Finished => { return Ok(Vec::new()); },
            EncoderPhase::Faulted => { return Err(EncoderError::Fault); },
            EncoderPhase::Active => {},
        }
        let completed = finish_stream(&mut self.deflater);
        match self.settle(completed) {
            Ok(()) => {
                let mut last: Vec<u8> = Vec::new();
                let produced = inner_buffer(&mut self.deflater);
                core::mem::swap(produced, &mut last);
                self.phase = EncoderPhase::Finished;
                Ok(last)
            },
            Err(fault) => Err(fault),
        }
    }
}

impl Default for GzipEncoder {
    fn default() -> (encoder: GzipEncoder)
        ensures
            encoder.wf(),
            encoder.phase() == EncoderPhase::Active,
            encoder.chunks() == Seq::<Seq<u8>>::empty(),
    {
        GzipEncoder::new()
    }
}

} // verus!
