//! The framed byte sink: it takes chunks, compresses them, and keeps the
//! compressed bytes until the destination has taken them.
//!
//! The sink performs no I/O. Each poll says what its driver has to do next
//! with the destination; the driver does it and reports back. So the sink
//! can stand behind any destination, and every decision is made here.

use crate::buffer::advance_buffer;
use crate::buffer::buffer_bytes;
use crate::buffer::buffer_slice;
use crate::buffer::chunk_bytes;
use crate::encoder::completes;
use crate::encoder::lemma_body_push;
use crate::encoder::output;
use crate::encoder::stream;
use crate::encoder::takes;
use crate::encoder::EncoderError;
use crate::encoder::EncoderPhase;
use crate::encoder::GzipEncoder;
use crate::model::lemma_step_conserves;
use crate::model::Action;
use crate::model::Event;
use crate::model::SinkPhase;
use crate::model::SinkState;
use bytes::Bytes;
use bytes::BytesMut;
use vstd::prelude::*;

verus! {

/// Why a sink refused a call.
#[derive(Clone, Copy, Debug, PartialEq, Eq, Structural)]
pub enum SinkError {
    /// Bytes are still pending, or, for a shutdown, the stream is not final
    /// yet.
    NotReady,
    /// A chunk was submitted after close.
    Closed,
    /// The compressor reported a failure, now or earlier.
    Encoder,
    /// The destination took none of the bytes offered.
    WriteZero,
    /// The destination reported more bytes than it was offered.
    Overrun,
}

/// A gzip sink without its destination.
pub struct GzipSink {
    encoder: GzipEncoder,
    pending: BytesMut,
    phase: SinkPhase,
    delivered: Ghost<Seq<u8>>,
}

impl View for GzipSink {
    type V = SinkState;

    closed spec fn view(&self) -> SinkState {
        SinkState {
            chunks: self.encoder.chunks(),
            pending: buffer_bytes(self.pending),
            delivered: self.delivered@,
            phase: self.phase,
        }
    }
}

impl GzipSink {
    /// The sink's invariant: its encoder is in step with its phase, and the
    /// stream is conserved.
    pub closed spec fn wf(&self) -> bool {
        &&& self@.conserved()
        &&& self.phase == SinkPhase::Open ==> self.encoder.wf() && self.encoder.phase()
            == EncoderPhase::Active
        &&& self.phase == SinkPhase::Closing || self.phase == SinkPhase::Closed
            ==> self.encoder.wf() && self.encoder.phase() == EncoderPhase::Finished
    }

    /// What the invariant means to a caller: the stream is conserved, and
    /// the stream of a finalized sink holds at least a header and a trailer,
    /// eighteen bytes. So a closed sink has delivered a stream that is not
    /// empty, even for no input at all.
    pub proof fn lemma_wf_conserved(&self)
        requires
            self.wf(),
        ensures
            self@.conserved(),
            self@.phase == SinkPhase::Closing || self@.phase == SinkPhase::Closed ==> stream(
                self@.chunks,
            ).len() >= 18,
            self@.phase == SinkPhase::Closed ==> self@.delivered.len() >= 18,
    {
        if self.phase == SinkPhase::Closing || self.phase == SinkPhase::Closed {
            self.encoder.lemma_finished_stream_len();
        }
    }

    /// A new sink: open, with nothing accepted, pending or delivered.
    pub fn new() -> (sink: GzipSink)
        ensures
            sink.wf(),
            sink@ == SinkState::initial(),
    {
        let sink = GzipSink {
            encoder: GzipEncoder::new(),
            pending: BytesMut::new(),
            phase: SinkPhase::Open,
            delivered: Ghost(Seq::empty()),
        };
        proof {
            assert(sink@.produced() =~= Seq::<u8>::empty());
        }
        sink
    }

    /// The phase the sink is in.
    pub fn phase(&self) -> (phase: SinkPhase)
        ensures
            phase == self@.phase,
    {
        self.phase
    }

    /// Whether all bytes produced have been taken by the destination.
    pub fn is_ready(&self) -> (ready: bool)
        ensures
            ready == (self@.pending.len() == 0),
    {
        self.pending.is_empty()
    }

    /// The bytes to offer to the destination: all that is pending, and
    /// nothing else.
    pub fn pending_bytes(&self) -> (bytes: &[u8])
        ensures
            bytes@ == self@.pending,
    {
        buffer_slice(&self.pending)
    }

    /// The readiness check: `Write` while bytes are pending, `Ready` once
    /// the destination has taken them all.
    pub fn poll_ready(&self) -> (action: Action)
        ensures
            action == self@.ready_action(),
    {
        if self.pending.is_empty() {
            Action::Ready
        } else {
            Action::Write
        }
    }

    /// Records what the encoder reported. A fault fails the sink for good;
    /// any other outcome leaves it as it is. Errors are passed on as the
    /// sink's own.
    pub fn absorb<T>(&mut self, encoded: Result<T, EncoderError>) -> (absorbed: Result<
        T,
        SinkError,
    >)
        ensures
            match encoded {
                Ok(value) => absorbed == Ok::<T, SinkError>(value) && *final(self) == *old(self),
                Err(EncoderError::Finished) => absorbed == Err::<T, SinkError>(SinkError::Closed)
                    && *final(self) == *old(self),
                Err(EncoderError::Fault) => absorbed == Err::<T, SinkError>(SinkError::Encoder)
                    && final(self)@ == old(self)@.fail() && final(self).wf(),
            },
    {
        match encoded {
            Ok(value) => Ok(value),
            Err(EncoderError::Finished) => Err(SinkError::Closed),
            Err(EncoderError::Fault) => {
                self.phase = SinkPhase::Failed;
                Err(SinkError::Encoder)
            },
        }
    }

    /// Submits a chunk: compresses it and appends what the compressor
    /// produced to the pending bytes. Nothing is written here.
    ///
    /// A chunk is accepted only by an open sink with nothing pending. A
    /// failed sink refuses with `Encoder`, a finalized one with `Closed`, an
    /// open one with bytes pending with `NotReady`; a refusal changes
    /// nothing. A sink that is ready succeeds exactly if the compressor
    /// takes the chunk; if not, it fails with `Encoder` and is failed.
    pub fn start_send(&mut self, item: Bytes) -> (sent: Result<(), SinkError>)
        requires
            old(self).wf(),
        ensures
            final(self).wf(),
            final(self)@ == old(self)@.submit(chunk_bytes(item)),
            sent is Ok <==> old(self)@.accepts() && takes(old(self)@.chunks, chunk_bytes(item)),
            sent == Err::<(), SinkError>(SinkError::NotReady) <==> old(self)@.phase
                == SinkPhase::Open && old(self)@.pending.len() > 0,
            sent == Err::<(), SinkError>(SinkError::Closed) <==> old(self)@.phase
                == SinkPhase::Closing || old(self)@.phase == SinkPhase::Closed,
            sent == Err::<(), SinkError>(SinkError::Encoder) <==> old(self)@.phase
                == SinkPhase::Failed || (old(self)@.accepts() && !takes(
                old(self)@.chunks,
                chunk_bytes(item),
            )),
    {
        match self.phase {
            SinkPhase::Failed => { return Err(SinkError::Encoder); },
            SinkPhase::Closing => { return Err(SinkError::Closed); },
            SinkPhase::Closed => { return Err(SinkError::Closed); },
            SinkPhase::Open => {},
        }
        if !self.pending.is_empty() {
            return Err(SinkError::NotReady);
        }
        let encoded = self.encoder.encode(item, &mut self.pending);
        proof {
            if encoded is Ok {
                lemma_body_push(old(self)@.chunks, chunk_bytes(item));
                assert(self@.produced() =~= old(self)@.produced() + output(
                    old(self)@.chunks,
                    chunk_bytes(item),
                ));
            }
        }
        self.absorb(encoded)
    }

    /// The flush: `Write` while bytes are pending, then `Flush`, which asks
    /// for the destination itself to be flushed.
    pub fn poll_flush(&self) -> (action: Action)
        ensures
            action == self@.flush_action(),
    {
        if self.pending.is_empty() {
            Action::Flush
        } else {
            Action::Write
        }
    }

    /// Finalizes the stream, once: on an open sink the compressor is
    /// finished and the last bytes of the stream are appended to the
    /// pending ones. On a finalized sink this does nothing; on a failed one
    /// it fails with `Encoder`. On an open sink it succeeds exactly if the
    /// compressor completes the stream; if not, it fails with `Encoder` and
    /// the sink is failed.
    pub fn finish(&mut self) -> (finished: Result<(), SinkError>)
        requires
            old(self).wf(),
        ensures
            final(self).wf(),
            final(self)@ == old(self)@.finalize(),
            finished is Ok <==> old(self)@.phase == SinkPhase::Closing || old(self)@.phase
                == SinkPhase::Closed || (old(self)@.phase == SinkPhase::Open && completes(
                old(self)@.chunks,
            )),
            finished is Err ==> finished == Err::<(), SinkError>(SinkError::Encoder),
            finished is Ok ==> stream(final(self)@.chunks).len() >= 18,
    {
        match self.phase {
            SinkPhase::Failed => { return Err(SinkError::Encoder); },
            SinkPhase::Closing => {
                proof {
                    self.lemma_wf_conserved();
                }
                return Ok(());
            },
            SinkPhase::Closed => {
                proof {
                    self.lemma_wf_conserved();
                }
                return Ok(());
            },
            SinkPhase::Open => {},
        }
        let completed = self.encoder.finish();
        match self.absorb(completed) {
            Ok(last) => {
                self.pending.extend_from_slice(last.as_slice());
                self.phase = SinkPhase::Closing;
                proof {
                    assert(self@.produced() =~= old(self)@.produced() + last@);
                }
                Ok(())
            },
            Err(error) => Err(error),
        }
    }

    /// The close: finalizes the stream if that has not been done, then asks
    /// for `Write` while bytes are pending, for `Shutdown` once they are all
    /// taken, and says `Ready` once the shutdown has been reported. Polling
    /// again, at any point, produces no further bytes. It fails, with
    /// `Encoder`, exactly where `finish` does.
    pub fn poll_close(&mut self) -> (polled: Result<Action, SinkError>)
        requires
            old(self).wf(),
        ensures
            final(self).wf(),
            final(self)@ == old(self)@.finalize(),
            polled is Ok <==> old(self)@.phase == SinkPhase::Closing || old(self)@.phase
                == SinkPhase::Closed || (old(self)@.phase == SinkPhase::Open && completes(
                old(self)@.chunks,
            )),
            match polled {
                Ok(action) => {
                    &&& action == final(self)@.close_action()
                    &&& stream(final(self)@.chunks).len() >= 18
                },
                Err(error) => error == SinkError::Encoder,
            },
    {
        match self.finish() {
            Ok(()) => {
                if !self.pending.is_empty() {
                    Ok(Action::Write)
                } else {
                    match self.phase {
                        SinkPhase::Closing => Ok(Action::Shutdown),
                        _ => Ok(Action::Ready),
                    }
                }
            },
            Err(error) => Err(error),
        }
    }

    /// Reports that the destination took `n` of the bytes offered. They
    /// leave the pending bytes; the rest stays, in order.
    ///
    /// A report of more bytes than were offered fails with `Overrun`, and a
    /// report of none while bytes are pending with `WriteZero`; neither
    /// changes anything.
    pub fn wrote(&mut self, n: usize) -> (taken: Result<(), SinkError>)
        requires
            old(self).wf(),
        ensures
            final(self).wf(),
            n > old(self)@.pending.len() ==> taken == Err::<(), SinkError>(SinkError::Overrun),
            n == 0 && old(self)@.pending.len() > 0 ==> taken == Err::<(), SinkError>(
                SinkError::WriteZero,
            ),
            n <= old(self)@.pending.len() && (n > 0 || old(self)@.pending.len() == 0)
                ==> taken is Ok,
            taken is Ok ==> final(self)@ == old(self)@.take(n as nat),
            taken is Err ==> final(self)@ == old(self)@,
    {
        let offered = self.pending.len();
        if n > offered {
            return Err(SinkError::Overrun);
        }
        if n == 0 && offered > 0 {
            return Err(SinkError::WriteZero);
        }
        proof {
            lemma_step_conserves(self@, Event::Wrote(n as nat));
            self.delivered@ = self.delivered@ + buffer_bytes(self.pending).take(n as int);
        }
        advance_buffer(&mut self.pending, n);
        Ok(())
    }

    /// Reports that the destination has been shut down, which closes a
    /// finalized sink with nothing pending. On a closed sink this does
    /// nothing. A failed sink refuses with `Encoder`; a sink that is open,
    /// or has bytes pending, refuses with `NotReady`, and stays as it is.
    pub fn shut_down(&mut self) -> (shut: Result<(), SinkError>)
        requires
            old(self).wf(),
        ensures
            final(self).wf(),
            old(self)@.phase == SinkPhase::Failed ==> shut == Err::<(), SinkError>(
                SinkError::Encoder,
            ),
            old(self)@.phase == SinkPhase::Open ==> shut == Err::<(), SinkError>(
                SinkError::NotReady,
            ),
            old(self)@.phase == SinkPhase::Closing && old(self)@.pending.len() > 0 ==> shut
                == Err::<(), SinkError>(SinkError::NotReady),
            old(self)@.phase == SinkPhase::Closed || (old(self)@.phase == SinkPhase::Closing
                && old(self)@.pending.len() == 0) ==> shut is Ok,
            shut is Ok ==> final(self)@.phase == SinkPhase::Closed,
            final(self)@ == old(self)@.shut(),
    {
        match self.phase {
            SinkPhase::Failed => Err(SinkError::Encoder),
            SinkPhase::Open => Err(SinkError::NotReady),
            SinkPhase::Closed => Ok(()),
            SinkPhase::Closing => {
                if !self.pending.is_empty() {
                    Err(SinkError::NotReady)
                } else {
                    proof {
                        lemma_step_conserves(self@, Event::ShutDown);
                    }
                    self.phase = SinkPhase::Closed;
                    Ok(())
                }
            },
        }
    }
}

} // verus!
