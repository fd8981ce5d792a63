//! The sink as a state machine over plain values, and the laws that hold of
//! it. The executable sink is specified against the moves defined here.

use crate::encoder::body;
use crate::encoder::completes;
use crate::encoder::lemma_body_push;
use crate::encoder::output;
use crate::encoder::stream;
use crate::encoder::tail;
use crate::encoder::takes;
use vstd::prelude::*;

verus! {

/// Where a sink stands in its life.
#[derive(Clone, Copy, Debug, PartialEq, Eq, Structural)]
pub enum SinkPhase {
    /// Chunks are taken, one at a time, each after the one before has been
    /// handed on in full.
    Open,
    /// The stream has been finalized; its last bytes are on their way, and
    /// the destination has not been shut down yet.
    Closing,
    /// The whole stream is with the destination, which has been shut down.
    Closed,
    /// The compressor reported a failure; the stream is lost.
    Failed,
}

/// What the driver of a sink has to do next.
#[derive(Clone, Copy, Debug, PartialEq, Eq, Structural)]
pub enum Action {
    /// Nothing: the operation asked about is complete.
    Ready,
    /// Offer the pending bytes to the destination, and report how many it
    /// took.
    Write,
    /// Nothing is pending: flush the destination, which completes the flush.
    Flush,
    /// Nothing is pending and the stream is final: shut the destination
    /// down, and report it.
    Shutdown,
}

/// What can happen to a sink.
pub enum Event {
    /// A chunk is submitted.
    Submit(Seq<u8>),
    /// Close is asked for.
    Close,
    /// The destination reports that it took this many of the bytes offered.
    Wrote(nat),
    /// The destination reports that it has been shut down.
    ShutDown,
    /// A failure of the compressor is recorded.
    Fault,
}

/// A sink, as contracts see it.
pub struct SinkState {
    /// The chunks accepted so far, in order.
    pub chunks: Seq<Seq<u8>>,
    /// Compressed bytes produced and not yet taken by the destination.
    pub pending: Seq<u8>,
    /// Compressed bytes that the destination has taken, in order.
    pub delivered: Seq<u8>,
    /// The phase.
    pub phase: SinkPhase,
}

impl SinkState {
    /// A new sink: open, with nothing accepted, pending or delivered.
    pub open spec fn initial() -> SinkState {
        SinkState {
            chunks: Seq::empty(),
            pending: Seq::empty(),
            delivered: Seq::empty(),
            phase: SinkPhase::Open,
        }
    }

    /// All compressed bytes produced so far: those delivered, then those
    /// pending.
    pub open spec fn produced(self) -> Seq<u8> {
        self.delivered + self.pending
    }

    /// No byte is lost, added or reordered between compressor and
    /// destination: what has been produced is the body for the chunks
    /// accepted while the sink is open, and the complete stream once it is
    /// finalized; a closed sink has nothing pending.
    pub open spec fn conserved(self) -> bool {
        match self.phase {
            SinkPhase::Open => self.produced() == body(self.chunks),
            SinkPhase::Closing => self.produced() == stream(self.chunks),
            SinkPhase::Closed => self.pending.len() == 0 && self.delivered == stream(
                self.chunks,
            ),
            SinkPhase::Failed => true,
        }
    }

    /// Whether the sink is ready for a chunk: it is open and nothing is
    /// pending.
    pub open spec fn accepts(self) -> bool {
        self.phase == SinkPhase::Open && self.pending.len() == 0
    }

    /// The sink after a chunk was submitted. A sink that is not ready for
    /// one is unchanged. A sink that is ready hands the chunk to the
    /// compressor: if the compressor takes it, the chunk is accepted and the
    /// output for it is pending; if not, the sink is failed.
    pub open spec fn submit(self, chunk: Seq<u8>) -> SinkState {
        if !self.accepts() {
            self
        } else if takes(self.chunks, chunk) {
            SinkState {
                chunks: self.chunks.push(chunk),
                pending: self.pending + output(self.chunks, chunk),
                ..self
            }
        } else {
            self.fail()
        }
    }

    /// The sink after close was asked for. An open sink is finalized, if
    /// the compressor completes the stream: the last bytes of the stream
    /// are appended to the pending ones. If the compressor does not, the
    /// sink is failed. Any other sink is unchanged.
    pub open spec fn finalize(self) -> SinkState {
        if self.phase != SinkPhase::Open {
            self
        } else if completes(self.chunks) {
            SinkState {
                pending: self.pending + tail(self.chunks),
                phase: SinkPhase::Closing,
                ..self
            }
        } else {
            self.fail()
        }
    }

    /// The sink after the destination took the first `n` pending bytes. A
    /// report of more bytes than were pending changes nothing.
    pub open spec fn take(self, n: nat) -> SinkState {
        if n <= self.pending.len() {
            SinkState {
                pending: self.pending.skip(n as int),
                delivered: self.delivered + self.pending.take(n as int),
                ..self
            }
        } else {
            self
        }
    }

    /// The sink after the destination was shut down. Only a finalized sink
    /// with nothing pending becomes closed.
    pub open spec fn shut(self) -> SinkState {
        if self.phase == SinkPhase::Closing && self.pending.len() == 0 {
            SinkState { phase: SinkPhase::Closed, ..self }
        } else {
            self
        }
    }

    /// The sink after a failure of the compressor was recorded.
    pub open spec fn fail(self) -> SinkState {
        SinkState { phase: SinkPhase::Failed, ..self }
    }

    /// What a readiness check asks of the driver.
    pub open spec fn ready_action(self) -> Action {
        if self.pending.len() > 0 {
            Action::Write
        } else {
            Action::Ready
        }
    }

    /// What a flush asks of the driver.
    pub open spec fn flush_action(self) -> Action {
        if self.pending.len() > 0 {
            Action::Write
        } else {
            Action::Flush
        }
    }

    /// What a close asks of the driver, once the sink is finalized.
    /// (A failed sink answers a close with an error, not with an action.)
    pub open spec fn close_action(self) -> Action {
        if self.pending.len() > 0 {
            Action::Write
        } else if self.phase == SinkPhase::Closing {
            Action::Shutdown
        } else {
            Action::Ready
        }
    }

    /// The sink after the destination took all that was pending.
    pub open spec fn drained(self) -> SinkState {
        self.take(self.pending.len())
    }

    /// The sink after `chunks` were submitted one by one, each after all
    /// bytes pending before it were taken: the readiness check, then the
    /// submission.
    pub open spec fn fed(self, chunks: Seq<Seq<u8>>) -> SinkState
        decreases chunks.len(),
    {
        if chunks.len() == 0 {
            self
        } else {
            self.fed(chunks.drop_last()).drained().submit(chunks.last())
        }
    }

    /// A whole job: a new sink is fed `chunks`, then closed, drained and
    /// shut down.
    pub open spec fn completed(chunks: Seq<Seq<u8>>) -> SinkState {
        SinkState::initial().fed(chunks).finalize().drained().shut()
    }

    /// The sink after one event.
    pub open spec fn step(self, event: Event) -> SinkState {
        match event {
            Event::Submit(chunk) => self.submit(chunk),
            Event::Close => self.finalize(),
            Event::Wrote(n) => self.take(n),
            Event::ShutDown => self.shut(),
            Event::Fault => self.fail(),
        }
    }

    /// The sink after a run of events, first to last.
    pub open spec fn run(self, events: Seq<Event>) -> SinkState
        decreases events.len(),
    {
        if events.len() == 0 {
            self
        } else {
            self.run(events.drop_last()).step(events.last())
        }
    }
}

/// Whether the compressor takes each of `chunks` in turn, after `history`.
pub open spec fn takes_all(history: Seq<Seq<u8>>, chunks: Seq<Seq<u8>>) -> bool
    decreases chunks.len(),
{
    chunks.len() == 0 || (takes_all(history, chunks.drop_last()) && takes(
        history + chunks.drop_last(),
        chunks.last(),
    ))
}

/// Whether the compressor takes each of `chunks` in turn and then completes
/// the stream.
pub open spec fn compresses(chunks: Seq<Seq<u8>>) -> bool {
    takes_all(Seq::empty(), chunks) && completes(chunks)
}

/// The chunks among `events` that a sink in state `from` accepts, in order.
pub open spec fn accepted_chunks(from: SinkState, events: Seq<Event>) -> Seq<Seq<u8>>
    decreases events.len(),
{
    if events.len() == 0 {
        Seq::empty()
    } else {
        let before = accepted_chunks(from, events.drop_last());
        match events.last() {
            Event::Submit(chunk) => {
                let reached = from.run(events.drop_last());
                if reached.accepts() && takes(reached.chunks, chunk) {
                    before.push(chunk)
                } else {
                    before
                }
            },
            _ => before,
        }
    }
}

/// A new sink conserves the stream.
pub proof fn lemma_initial_conserved()
    ensures
        SinkState::initial().conserved(),
{
    assert(SinkState::initial().produced() =~= Seq::<u8>::empty());
}

/// No event breaks conservation: whatever is submitted, however many bytes
/// the destination takes at a time, and whenever close is asked for, the
/// bytes delivered and pending are the compressor's output for the chunks
/// accepted, in order.
pub proof fn lemma_step_conserves(state: SinkState, event: Event)
    requires
        state.conserved(),
    ensures
        state.step(event).conserved(),
{
    let next = state.step(event);
    match event {
        Event::Submit(chunk) => {
            if state.accepts() && takes(state.chunks, chunk) {
                lemma_body_push(state.chunks, chunk);
                assert(next.produced() =~= state.produced() + output(
                    state.chunks,
                    chunk,
                ));
            }
        },
        Event::Close => {
            if state.phase == SinkPhase::Open && completes(state.chunks) {
                assert(next.produced() =~= state.produced() + tail(state.chunks));
            }
        },
        Event::Wrote(n) => {
            if n <= state.pending.len() {
                assert(state.pending =~= state.pending.take(n as int) + state.pending.skip(
                    n as int,
                ));
                assert(next.produced() =~= state.produced());
                if state.phase == SinkPhase::Closed {
                    assert(next.delivered =~= state.delivered);
                }
            }
        },
        Event::ShutDown => {
            if state.phase == SinkPhase::Closing && state.pending.len() == 0 {
                assert(state.produced() =~= state.delivered);
            }
        },
        Event::Fault => {},
    }
}

/// Conservation holds after every run of events.
pub proof fn lemma_run_conserves(state: SinkState, events: Seq<Event>)
    requires
        state.conserved(),
    ensures
        state.run(events).conserved(),
    decreases events.len(),
{
    if events.len() > 0 {
        lemma_run_conserves(state, events.drop_last());
        lemma_step_conserves(state.run(events.drop_last()), events.last());
    }
}

/// A run adds to the chunks of a sink exactly the chunks it accepted, in the
/// order submitted.
pub proof fn lemma_run_chunks(state: SinkState, events: Seq<Event>)
    ensures
        state.run(events).chunks == state.chunks + accepted_chunks(state, events),
    decreases events.len(),
{
    if events.len() == 0 {
        assert(state.chunks + Seq::<Seq<u8>>::empty() =~= state.chunks);
    } else {
        let before = state.run(events.drop_last());
        lemma_run_chunks(state, events.drop_last());
        let earlier = accepted_chunks(state, events.drop_last());
        match events.last() {
            Event::Submit(chunk) => {
                if before.accepts() && takes(before.chunks, chunk) {
                    assert((state.chunks + earlier).push(chunk) =~= state.chunks + earlier.push(
                        chunk,
                    ));
                }
            },
            _ => {},
        }
    }
}

/// The destination of a closed sink holds the complete gzip stream for the
/// chunks submitted and accepted, in order: this holds for every way of
/// cutting the input into chunks, and for every way in which the
/// destination takes the bytes, in one piece or in many.
pub proof fn lemma_closed_run_delivers_stream(events: Seq<Event>)
    requires
        SinkState::initial().run(events).phase == SinkPhase::Closed,
    ensures
        SinkState::initial().run(events).delivered == stream(
            accepted_chunks(SinkState::initial(), events),
        ),
        SinkState::initial().run(events).pending.len() == 0,
{
    let start = SinkState::initial();
    lemma_initial_conserved();
    lemma_run_conserves(start, events);
    lemma_run_chunks(start, events);
    assert(start.chunks + accepted_chunks(start, events) =~= accepted_chunks(start, events));
}

/// Close is idempotent: asking for it again changes nothing, so no byte is
/// produced beyond those of the first close.
pub proof fn lemma_close_idempotent(state: SinkState)
    ensures
        state.finalize().finalize() == state.finalize(),
        state.finalize().step(Event::Close) == state.finalize(),
{
}

/// Once a sink is closed, no event but a recorded failure changes it:
/// nothing more is accepted, produced or delivered.
pub proof fn lemma_closed_is_terminal(state: SinkState, event: Event)
    requires
        state.conserved(),
        state.phase == SinkPhase::Closed,
        !(event is Fault),
    ensures
        state.step(event) == state,
{
    match event {
        Event::Wrote(n) => {
            if n <= state.pending.len() {
                assert(state.pending.skip(n as int) =~= state.pending);
                assert(state.delivered + state.pending.take(n as int) =~= state.delivered);
            }
        },
        _ => {},
    }
}

/// Back-pressure: while bytes are pending no chunk is accepted, and a
/// submission changes nothing.
pub proof fn lemma_no_chunk_while_pending(state: SinkState, chunk: Seq<u8>)
    requires
        state.pending.len() > 0,
    ensures
        !state.accepts(),
        state.submit(chunk) == state,
        state.ready_action() == Action::Write,
{
}

/// Partial writes: when the destination takes `n` of the pending bytes, it
/// has been given exactly the first `n` of them, the rest stays pending in
/// order, and nothing is produced or lost.
pub proof fn lemma_take_keeps_remainder(state: SinkState, n: nat)
    requires
        n <= state.pending.len(),
    ensures
        state.take(n).delivered == state.delivered + state.pending.take(n as int),
        state.take(n).pending == state.pending.skip(n as int),
        state.take(n).produced() == state.produced(),
        state.take(n).chunks == state.chunks,
        state.take(n).phase == state.phase,
{
    assert(state.pending =~= state.pending.take(n as int) + state.pending.skip(n as int));
    assert(state.take(n).produced() =~= state.produced());
}

/// Partial writes add up: when the destination takes the pending bytes in
/// two pieces, the sink ends as if it had taken them in one. So a drain ends
/// in the same state whatever the size of the pieces.
pub proof fn lemma_takes_add_up(state: SinkState, first: nat, second: nat)
    requires
        first + second <= state.pending.len(),
    ensures
        state.take(first).take(second) == state.take(first + second),
{
    let pending = state.pending;
    assert(pending.skip(first as int).skip(second as int) =~= pending.skip(
        (first + second) as int,
    ));
    assert(state.delivered + pending.take(first as int) + pending.skip(first as int).take(
        second as int,
    ) =~= state.delivered + pending.take((first + second) as int));
}

/// A driver that checks readiness before each submission has no chunk
/// refused by the sink: an open sink that is fed `chunks`, each of which the
/// compressor takes, stays open and has accepted all of them, in order,
/// after what it had accepted before.
pub proof fn lemma_fed_accepts_all(state: SinkState, chunks: Seq<Seq<u8>>)
    requires
        state.conserved(),
        state.phase == SinkPhase::Open,
        takes_all(state.chunks, chunks),
    ensures
        state.fed(chunks).conserved(),
        state.fed(chunks).phase == SinkPhase::Open,
        state.fed(chunks).chunks == state.chunks + chunks,
    decreases chunks.len(),
{
    if chunks.len() == 0 {
        assert(state.chunks + chunks =~= state.chunks);
    } else {
        let before = state.fed(chunks.drop_last());
        lemma_fed_accepts_all(state, chunks.drop_last());
        lemma_step_conserves(before, Event::Wrote(before.pending.len()));
        lemma_step_conserves(before.drained(), Event::Submit(chunks.last()));
        assert(before.drained().accepts());
        assert((state.chunks + chunks.drop_last()).push(chunks.last()) =~= state.chunks + chunks);
    }
}

/// Once a sink is failed it stays failed, whatever happens.
pub proof fn lemma_failed_is_terminal(state: SinkState, event: Event)
    requires
        state.phase == SinkPhase::Failed,
    ensures
        state.step(event).phase == SinkPhase::Failed,
        state.step(event).chunks == state.chunks,
        state.drained().phase == SinkPhase::Failed,
{
}

/// A sink that is fed ends open or failed, and it ends open exactly if the
/// compressor took every chunk.
pub proof fn lemma_fed_open_iff_taken(state: SinkState, chunks: Seq<Seq<u8>>)
    requires
        state.conserved(),
        state.phase == SinkPhase::Open,
    ensures
        state.fed(chunks).phase == SinkPhase::Open <==> takes_all(state.chunks, chunks),
        state.fed(chunks).phase == SinkPhase::Open || state.fed(chunks).phase
            == SinkPhase::Failed,
    decreases chunks.len(),
{
    if chunks.len() > 0 {
        let front = chunks.drop_last();
        let before = state.fed(front);
        lemma_fed_open_iff_taken(state, front);
        if takes_all(state.chunks, front) {
            lemma_fed_accepts_all(state, front);
            assert(before.drained().accepts());
            assert(before.drained().chunks == state.chunks + front);
        }
    }
}

/// A whole job delivers the whole stream: after the chunks of a file were
/// submitted in order, each after a readiness check, and the sink was
/// closed, the destination holds the complete gzip stream for exactly these
/// chunks, and nothing is pending. This holds whenever the compressor takes
/// the chunks and completes the stream; if it does not, the job ends
/// failed.
pub proof fn lemma_completed_delivers_stream(chunks: Seq<Seq<u8>>)
    ensures
        compresses(chunks) ==> {
            &&& SinkState::completed(chunks).phase == SinkPhase::Closed
            &&& SinkState::completed(chunks).chunks == chunks
            &&& SinkState::completed(chunks).delivered == stream(chunks)
            &&& SinkState::completed(chunks).pending.len() == 0
        },
        !compresses(chunks) ==> SinkState::completed(chunks).phase == SinkPhase::Failed,
{
    let start = SinkState::initial();
    let fed = start.fed(chunks);
    lemma_initial_conserved();
    lemma_fed_open_iff_taken(start, chunks);
    if takes_all(start.chunks, chunks) {
        lemma_fed_accepts_all(start, chunks);
        assert(Seq::<Seq<u8>>::empty() + chunks =~= chunks);
        let finalized = fed.finalize();
        lemma_step_conserves(fed, Event::Close);
        lemma_step_conserves(finalized, Event::Wrote(finalized.pending.len()));
        lemma_step_conserves(finalized.drained(), Event::ShutDown);
    }
}

/// Order of closing: the destination is asked to shut down only after the
/// stream was finalized and all of it was taken, and only then does a
/// report of the shutdown close the sink.
pub proof fn lemma_shutdown_follows_drain(state: SinkState)
    ensures
        state.close_action() == Action::Shutdown ==> state.phase == SinkPhase::Closing
            && state.pending.len() == 0,
        state.phase != SinkPhase::Closed && state.shut().phase == SinkPhase::Closed
            ==> state.phase == SinkPhase::Closing && state.pending.len() == 0,
        state.conserved() && state.shut().phase == SinkPhase::Closed ==> state.shut().delivered
            == stream(state.chunks),
{
    if state.conserved() && state.shut().phase == SinkPhase::Closed {
        assert(state.produced() =~= state.delivered);
    }
}

} // verus!
