use vstd::prelude::*;

verus! {

use crate::errors::CoreError;

/// Lifecycle of a stream channel, as driven by its producer side.
#[derive(Clone, Debug)]
pub enum Lifecycle {
    /// Senders may still push.
    Open,
    /// `abort(message)` was called: after the buffered chunks drain, the
    /// receiver observes one terminal error carrying the message, then
    /// end-of-stream.
    Aborted { message: String },
    /// `close()` was called (or the terminal error was consumed): after the
    /// buffered chunks drain the receiver observes end-of-stream.
    Closed,
}

/// Ghost mirror of [`Lifecycle`].
pub enum LifecycleView {
    Open,
    Aborted { message: Seq<char> },
    Closed,
}

impl View for Lifecycle {
    type V = LifecycleView;

    closed spec fn view(&self) -> LifecycleView {
        match self {
            Lifecycle::Open => LifecycleView::Open,
            Lifecycle::Aborted { message } => LifecycleView::Aborted { message: message@ },
            Lifecycle::Closed => LifecycleView::Closed,
        }
    }
}

/// Mathematical model of a stream channel: the buffered chunks in FIFO
/// order, the capacity bound, and the lifecycle state.
pub struct ChannelView {
    pub chunks: Seq<Seq<u8>>,
    pub cap: nat,
    pub state: LifecycleView,
}

/// The model of a freshly created channel.
pub open spec fn empty_channel(cap: nat) -> ChannelView {
    ChannelView { chunks: Seq::empty(), cap, state: LifecycleView::Open }
}

/// Which consumption mode a receiver has committed to.  The two modes are
/// mutually exclusive and the stream conversion is one-time.
#[derive(Clone, Copy, Debug, PartialEq, Eq, Structural)]
pub enum ConsumeMode {
    /// No consumption has started.
    Fresh,
    /// The receiver was converted into a poll-driven async stream.
    Stream,
    /// Direct iteration via `next` has begun.
    Iterate,
}

/// Outcome of one push attempt.
#[derive(Clone, Copy, Debug, PartialEq, Eq, Structural)]
pub enum PushOutcome {
    /// The chunk was enqueued.
    Accepted,
    /// The buffer is at capacity: the caller must wait for a consumer and
    /// retry; the chunk was not enqueued.
    Full,
    /// The model-level outcome of a push on a closed channel: the chunk is
    /// not enqueued, and the executable push surfaces it as the
    /// `ChannelClosed` error rather than drop the data silently.
    Refused,
}

/// The model-level outcome of an executable push.
pub open spec fn push_result_outcome(r: Result<PushOutcome, CoreError>) -> PushOutcome {
    match r {
        Ok(o) => o,
        Err(_) => PushOutcome::Refused,
    }
}

/// Outcome of one receive attempt.
#[derive(Clone, Debug)]
pub enum NextOutcome {
    /// The oldest buffered chunk.
    Item(Vec<u8>),
    /// Nothing buffered yet, channel still open: the caller must wait for a
    /// producer and retry.
    Pending,
    /// End-of-stream: the channel closed and the buffer has drained.
    End,
    /// The terminal error enqueued by `abort`; subsequent attempts observe
    /// end-of-stream.
    Failed { message: String },
}

/// Ghost mirror of [`NextOutcome`].
pub enum NextView {
    Item(Seq<u8>),
    Pending,
    End,
    Failed { message: Seq<char> },
}

impl View for NextOutcome {
    type V = NextView;

    closed spec fn view(&self) -> NextView {
        match self {
            NextOutcome::Item(c) => NextView::Item(c@),
            NextOutcome::Pending => NextView::Pending,
            NextOutcome::End => NextView::End,
            NextOutcome::Failed { message } => NextView::Failed { message: message@ },
        }
    }
}

/// What one push does to the channel model.
pub open spec fn spec_push(v: ChannelView, c: Seq<u8>) -> (ChannelView, PushOutcome) {
    if !(v.state is Open) {
        (v, PushOutcome::Refused)
    } else if v.chunks.len() < v.cap {
        (ChannelView { chunks: v.chunks.push(c), ..v }, PushOutcome::Accepted)
    } else {
        (v, PushOutcome::Full)
    }
}

/// What `close` does to the channel model: idempotent, and it does not
/// discard an abort's terminal error.
pub open spec fn spec_close(v: ChannelView) -> ChannelView {
    if v.state is Open {
        ChannelView { state: LifecycleView::Closed, ..v }
    } else {
        v
    }
}

/// What `abort` does to the channel model: a no-op once closed or aborted.
pub open spec fn spec_abort(v: ChannelView, message: Seq<char>) -> ChannelView {
    if v.state is Open {
        ChannelView { state: LifecycleView::Aborted { message }, ..v }
    } else {
        v
    }
}

/// What one receive attempt does to the channel model.
pub open spec fn spec_next(v: ChannelView) -> (ChannelView, NextView) {
    if v.chunks.len() > 0 {
        (ChannelView { chunks: v.chunks.drop_first(), ..v }, NextView::Item(v.chunks.first()))
    } else {
        match v.state {
            LifecycleView::Open => (v, NextView::Pending),
            LifecycleView::Aborted { message } => (
                ChannelView { state: LifecycleView::Closed, ..v },
                NextView::Failed { message },
            ),
            LifecycleView::Closed => (v, NextView::End),
        }
    }
}

/// Mode transition of the one-time stream conversion: the `bool` says
/// whether the conversion succeeded.
pub open spec fn spec_take_stream(m: ConsumeMode) -> (ConsumeMode, bool) {
    if m is Fresh {
        (ConsumeMode::Stream, true)
    } else {
        (m, false)
    }
}

/// Mode transition of direct iteration: allowed unless the receiver was
/// already converted into a stream.
pub open spec fn spec_begin_iterate(m: ConsumeMode) -> (ConsumeMode, bool) {
    if m is Stream {
        (m, false)
    } else {
        (ConsumeMode::Iterate, true)
    }
}

/// A bounded, backpressured FIFO channel of byte chunks.
///
/// This value is the internally synchronized state that the producer and
/// consumer endpoints share: callers wrap it in a lock and hand out sender
/// and receiver handles.  Waiting is outside work — `push` and `next`
/// answer `Full` and `Pending` instead of blocking, and the caller parks
/// until the counterpart makes progress, then retries.
///
/// Chunk count, not byte count, is what the capacity bounds; it is the sole
/// backpressure mechanism.
#[derive(Debug)]
pub struct StreamChannel {
    buf: Vec<Vec<u8>>,
    capacity: usize,
    state: Lifecycle,
    mode: ConsumeMode,
    senders: usize,
}

impl View for StreamChannel {
    type V = ChannelView;

    closed spec fn view(&self) -> ChannelView {
        ChannelView {
            chunks: self.buf@.map_values(|c: Vec<u8>| c@),
            cap: self.capacity as nat,
            state: self.state@,
        }
    }
}

impl StreamChannel {
    /// Which consumption mode the receiver side has committed to.
    pub closed spec fn consume_mode(&self) -> ConsumeMode {
        self.mode
    }

    /// How many sender handles are outstanding.
    pub closed spec fn sender_count(&self) -> nat {
        self.senders as nat
    }

    /// The buffer never exceeds the (positive) capacity.
    pub open spec fn well_formed(&self) -> bool {
        1 <= self@.cap && self@.chunks.len() <= self@.cap
    }

    /// Create a channel buffering at most `capacity` chunks, with one
    /// sender handle and a receiver that has not started consuming.
    pub fn new(capacity: usize) -> (ch: StreamChannel)
        requires
            1 <= capacity,
        ensures
            ch.well_formed(),
            ch@ == empty_channel(capacity as nat),
            ch.consume_mode() is Fresh,
            ch.sender_count() == 1,
    {
        let ch = StreamChannel {
            buf: Vec::new(),
            capacity,
            state: Lifecycle::Open,
            mode: ConsumeMode::Fresh,
            senders: 1,
        };
        proof {
            assert(ch@.chunks =~= Seq::<Seq<u8>>::empty());
            assert(ch@ =~= empty_channel(capacity as nat));
        }
        ch
    }

    /// Attempt to enqueue one chunk.
    ///
    /// If there is room and the channel is open, the chunk is appended at
    /// the back of the FIFO buffer.  `Full` asks the caller to wait for a
    /// consumer and retry.  A push on a closed channel fails with
    /// `ChannelClosed` — the chunk is never silently dropped.
    pub fn push(&mut self, chunk: Vec<u8>) -> (r: Result<PushOutcome, CoreError>)
        requires
            old(self).well_formed(),
        ensures
            final(self).well_formed(),
            (final(self)@, push_result_outcome(r)) == spec_push(old(self)@, chunk@),
            final(self).consume_mode() == old(self).consume_mode(),
            final(self).sender_count() == old(self).sender_count(),
            r matches Err(e) ==> e is ChannelClosed && final(self)@ == old(self)@,
            r is Err <==> !(old(self)@.state is Open),
            r == Ok::<PushOutcome, CoreError>(PushOutcome::Accepted) ==> final(self)@.chunks
                == old(self)@.chunks.push(chunk@),
            r == Ok::<PushOutcome, CoreError>(PushOutcome::Full) ==> old(self)@.chunks.len()
                == old(self)@.cap && final(self)@ == old(self)@,
    {
        match &self.state {
            Lifecycle::Open => {
                if self.buf.len() < self.capacity {
                    let ghost prev = self.buf@;
                    self.buf.push(chunk);
                    proof {
                        assert(self.buf@.map_values(|c: Vec<u8>| c@) =~= prev.map_values(
                            |c: Vec<u8>| c@,
                        ).push(chunk@));
                        assert(self@ =~= spec_push(old(self)@, chunk@).0);
                    }
                    Ok(PushOutcome::Accepted)
                } else {
                    proof {
                        assert(self@ =~= old(self)@);
                    }
                    Ok(PushOutcome::Full)
                }
            },
            _ => {
                proof {
                    assert(self@ =~= old(self)@);
                }
                Err(CoreError::ChannelClosed)
            },
        }
    }

    /// Mark that no further chunks will be pushed.  Idempotent; the
    /// buffered chunks stay, and the receiver observes end-of-stream once
    /// they drain.  A channel aborted earlier keeps its terminal error.
    pub fn close(&mut self)
        requires
            old(self).well_formed(),
        ensures
            final(self).well_formed(),
            final(self)@ == spec_close(old(self)@),
            final(self).consume_mode() == old(self).consume_mode(),
            final(self).sender_count() == old(self).sender_count(),
    {
        match &self.state {
            Lifecycle::Open => {
                self.state = Lifecycle::Closed;
                proof {
                    assert(self@ =~= spec_close(old(self)@));
                }
            },
            _ => {
                proof {
                    assert(self@ =~= spec_close(old(self)@));
                }
            },
        }
    }

    /// Enqueue one terminal error carrying `message`, then close.  A
    /// receiver that drains past the buffered chunks surfaces the error
    /// once, then end-of-stream.  Idempotent after `close` or an earlier
    /// `abort`.
    pub fn abort(&mut self, message: String)
        requires
            old(self).well_formed(),
        ensures
            final(self).well_formed(),
            final(self)@ == spec_abort(old(self)@, message@),
            final(self).consume_mode() == old(self).consume_mode(),
            final(self).sender_count() == old(self).sender_count(),
    {
        match &self.state {
            Lifecycle::Open => {
                self.state = Lifecycle::Aborted { message };
                proof {
                    assert(self@ =~= spec_abort(old(self)@, message@));
                }
            },
            _ => {
                proof {
                    assert(self@ =~= spec_abort(old(self)@, message@));
                }
            },
        }
    }

    /// Attempt to receive one chunk by direct iteration.
    ///
    /// Fails with `StreamAlreadyConsumed` if the receiver was converted
    /// into a stream; otherwise this call commits the receiver to the
    /// iteration mode.  `Pending` asks the caller to wait for a producer
    /// and retry.
    pub fn next(&mut self) -> (r: Result<NextOutcome, CoreError>)
        requires
            old(self).well_formed(),
        ensures
            final(self).well_formed(),
            final(self).sender_count() == old(self).sender_count(),
            final(self)@.cap == old(self)@.cap,
            (final(self).consume_mode(), r is Ok) == spec_begin_iterate(
                old(self).consume_mode(),
            ),
            r matches Err(e) ==> e is StreamAlreadyConsumed && final(self)@ == old(self)@,
            r matches Ok(o) ==> (final(self)@, o@) == spec_next(old(self)@),
    {
        match &self.mode {
            ConsumeMode::Stream => Err(CoreError::StreamAlreadyConsumed),
            _ => {
                self.mode = ConsumeMode::Iterate;
                if self.buf.len() > 0 {
                    let ghost prev = self.buf@;
                    let c = self.buf.remove(0);
                    proof {
                        assert(self.buf@.map_values(|x: Vec<u8>| x@) =~= prev.map_values(
                            |x: Vec<u8>| x@,
                        ).drop_first());
                        assert(self@ =~= spec_next(old(self)@).0);
                    }
                    Ok(NextOutcome::Item(c))
                } else {
                    match &self.state {
                        Lifecycle::Open => {
                            proof {
                                assert(self@ =~= old(self)@);
                            }
                            Ok(NextOutcome::Pending)
                        },
                        Lifecycle::Aborted { message } => {
                            let m = message.clone();
                            self.state = Lifecycle::Closed;
                            proof {
                                assert(self@ =~= spec_next(old(self)@).0);
                            }
                            Ok(NextOutcome::Failed { message: m })
                        },
                        Lifecycle::Closed => {
                            proof {
                                assert(self@ =~= old(self)@);
                            }
                            Ok(NextOutcome::End)
                        },
                    }
                }
            },
        }
    }

    /// Attempt to receive one chunk through the converted stream.  Allowed
    /// only after [`Self::take_stream`] committed the receiver to the
    /// stream mode; the transition on the buffer is the same as for
    /// direct iteration.
    pub fn poll_take(&mut self) -> (r: Result<NextOutcome, CoreError>)
        requires
            old(self).well_formed(),
        ensures
            final(self).well_formed(),
            final(self).sender_count() == old(self).sender_count(),
            final(self).consume_mode() == old(self).consume_mode(),
            final(self)@.cap == old(self)@.cap,
            r matches Err(e) ==> e is StreamAlreadyConsumed && final(self)@ == old(self)@,
            r is Err <==> !(old(self).consume_mode() is Stream),
            r matches Ok(o) ==> (final(self)@, o@) == spec_next(old(self)@),
    {
        match &self.mode {
            ConsumeMode::Stream => {
                if self.buf.len() > 0 {
                    let ghost prev = self.buf@;
                    let c = self.buf.remove(0);
                    proof {
                        assert(self.buf@.map_values(|x: Vec<u8>| x@) =~= prev.map_values(
                            |x: Vec<u8>| x@,
                        ).drop_first());
                        assert(self@ =~= spec_next(old(self)@).0);
                    }
                    Ok(NextOutcome::Item(c))
                } else {
                    match &self.state {
                        Lifecycle::Open => {
                            proof {
                                assert(self@ =~= old(self)@);
                            }
                            Ok(NextOutcome::Pending)
                        },
                        Lifecycle::Aborted { message } => {
                            let m = message.clone();
                            self.state = Lifecycle::Closed;
                            proof {
                                assert(self@ =~= spec_next(old(self)@).0);
                            }
                            Ok(NextOutcome::Failed { message: m })
                        },
                        Lifecycle::Closed => {
                            proof {
                                assert(self@ =~= old(self)@);
                            }
                            Ok(NextOutcome::End)
                        },
                    }
                }
            },
            _ => Err(CoreError::StreamAlreadyConsumed),
        }
    }

    /// Convert the receiver into its one-time poll-driven stream mode, for
    /// handoff to the HTTP engine as a request body.  Fails with
    /// `StreamAlreadyConsumed` on a second conversion or after direct
    /// iteration has begun.
    pub fn take_stream(&mut self) -> (r: Result<(), CoreError>)
        requires
            old(self).well_formed(),
        ensures
            final(self).well_formed(),
            final(self)@ == old(self)@,
            final(self).sender_count() == old(self).sender_count(),
            (final(self).consume_mode(), r is Ok) == spec_take_stream(old(self).consume_mode()),
            r matches Err(e) ==> e is StreamAlreadyConsumed,
    {
        match &self.mode {
            ConsumeMode::Fresh => {
                self.mode = ConsumeMode::Stream;
                Ok(())
            },
            _ => Err(CoreError::StreamAlreadyConsumed),
        }
    }

    /// Record that a sender handle was cloned.
    pub fn clone_sender(&mut self)
        requires
            old(self).well_formed(),
            old(self).sender_count() < usize::MAX,
        ensures
            final(self).well_formed(),
            final(self)@ == old(self)@,
            final(self).consume_mode() == old(self).consume_mode(),
            final(self).sender_count() == old(self).sender_count() + 1,
    {
        self.senders = self.senders + 1;
    }

    /// Record that a sender handle was dropped.  When the last one goes,
    /// the channel closes, so the receiver observes end-of-stream after the
    /// buffered chunks drain.
    pub fn release_sender(&mut self)
        requires
            old(self).well_formed(),
            old(self).sender_count() >= 1,
        ensures
            final(self).well_formed(),
            final(self).consume_mode() == old(self).consume_mode(),
            final(self).sender_count() == old(self).sender_count() - 1,
            old(self).sender_count() == 1 ==> final(self)@ == spec_close(old(self)@),
            old(self).sender_count() > 1 ==> final(self)@ == old(self)@,
    {
        self.senders = self.senders - 1;
        if self.senders == 0 {
            self.close();
        }
    }
}

/// The byte sequences of `cs`, concatenated in order.
pub open spec fn concat_all(cs: Seq<Seq<u8>>) -> Seq<u8>
    decreases cs.len(),
{
    if cs.len() == 0 {
        Seq::empty()
    } else {
        cs.first() + concat_all(cs.drop_first())
    }
}

/// `cs` as a sequence of receive results.
pub open spec fn items_of(cs: Seq<Seq<u8>>) -> Seq<NextView>
    decreases cs.len(),
{
    if cs.len() == 0 {
        Seq::empty()
    } else {
        seq![NextView::Item(cs.first())] + items_of(cs.drop_first())
    }
}

/// One when draining still owes the terminal error, zero otherwise.
pub open spec fn abort_weight(s: LifecycleView) -> nat {
    if s is Aborted {
        1
    } else {
        0
    }
}

/// Everything a receiver that keeps calling `next` observes, up to and
/// including the first result that stops the iteration (`Pending` or
/// `End`).
pub open spec fn drain_seq(v: ChannelView) -> Seq<NextView>
    decreases v.chunks.len() + abort_weight(v.state),
{
    let (v2, o) = spec_next(v);
    match o {
        NextView::Item(_) => seq![o] + drain_seq(v2),
        NextView::Failed { message: _ } => seq![o] + drain_seq(v2),
        _ => seq![o],
    }
}

/// The channel after pushing each chunk of `cs` in order, keeping whatever
/// each push decided.
pub open spec fn push_all(v: ChannelView, cs: Seq<Seq<u8>>) -> ChannelView
    decreases cs.len(),
{
    if cs.len() == 0 {
        v
    } else {
        push_all(spec_push(v, cs.first()).0, cs.drop_first())
    }
}

proof fn lemma_concat_all_append(a: Seq<Seq<u8>>, b: Seq<Seq<u8>>)
    ensures
        concat_all(a + b) == concat_all(a) + concat_all(b),
    decreases a.len(),
{
    if a.len() == 0 {
        assert(a + b =~= b);
        assert(concat_all(a) + concat_all(b) =~= concat_all(b));
    } else {
        assert((a + b).drop_first() =~= a.drop_first() + b);
        lemma_concat_all_append(a.drop_first(), b);
        assert(concat_all(a) + concat_all(b) =~= a.first() + (concat_all(a.drop_first())
            + concat_all(b)));
    }
}

/// While all pushes fit under the capacity, every one of them is accepted
/// and the buffer ends up holding the old chunks followed by the new ones.
pub proof fn lemma_push_all_accepted(v: ChannelView, cs: Seq<Seq<u8>>)
    requires
        v.state is Open,
        v.chunks.len() + cs.len() <= v.cap,
    ensures
        push_all(v, cs) == (ChannelView { chunks: v.chunks + cs, ..v }),
    decreases cs.len(),
{
    if cs.len() == 0 {
        assert(v.chunks + cs =~= v.chunks);
    } else {
        let v2 = spec_push(v, cs.first()).0;
        lemma_push_all_accepted(v2, cs.drop_first());
        assert(v2.chunks + cs.drop_first() =~= v.chunks + cs);
    }
}

proof fn lemma_drain_closed(v: ChannelView)
    requires
        v.state is Closed,
    ensures
        drain_seq(v) == items_of(v.chunks) + seq![NextView::End],
    decreases v.chunks.len(),
{
    if v.chunks.len() == 0 {
        assert(drain_seq(v) =~= items_of(v.chunks) + seq![NextView::End]);
    } else {
        lemma_drain_closed(spec_next(v).0);
        assert(drain_seq(v) =~= items_of(v.chunks) + seq![NextView::End]);
    }
}

proof fn lemma_drain_aborted(v: ChannelView, message: Seq<char>)
    requires
        v.state == (LifecycleView::Aborted { message }),
    ensures
        drain_seq(v) == items_of(v.chunks) + seq![
            NextView::Failed { message },
            NextView::End,
        ],
    decreases v.chunks.len(),
{
    if v.chunks.len() == 0 {
        let v2 = spec_next(v).0;
        lemma_drain_closed(v2);
        assert(drain_seq(v) =~= items_of(v.chunks) + seq![
            NextView::Failed { message },
            NextView::End,
        ]);
    } else {
        lemma_drain_aborted(spec_next(v).0, message);
        assert(drain_seq(v) =~= items_of(v.chunks) + seq![
            NextView::Failed { message },
            NextView::End,
        ]);
    }
}

/// Order preservation: push any `cs` (at most the capacity many chunks)
/// into a fresh channel, close it, and a receiver that keeps calling
/// `next` observes exactly the chunks of `cs`, in push order, then
/// end-of-stream.
pub proof fn lemma_order_preservation(cap: nat, cs: Seq<Seq<u8>>)
    requires
        1 <= cap,
        cs.len() <= cap,
    ensures
        drain_seq(spec_close(push_all(empty_channel(cap), cs))) == items_of(cs) + seq![
            NextView::End,
        ],
{
    lemma_push_all_accepted(empty_channel(cap), cs);
    let filled = push_all(empty_channel(cap), cs);
    assert(filled.chunks =~= cs);
    lemma_drain_closed(spec_close(filled));
}

/// Abort surfacing: push any `cs` into a fresh channel, abort with a
/// message, and draining observes all previously buffered chunks in
/// order, then one terminal error carrying the message, then
/// end-of-stream.
pub proof fn lemma_abort_surfacing(cap: nat, cs: Seq<Seq<u8>>, message: Seq<char>)
    requires
        1 <= cap,
        cs.len() <= cap,
    ensures
        drain_seq(spec_abort(push_all(empty_channel(cap), cs), message)) == items_of(cs) + seq![
            NextView::Failed { message },
            NextView::End,
        ],
{
    lemma_push_all_accepted(empty_channel(cap), cs);
    let filled = push_all(empty_channel(cap), cs);
    assert(filled.chunks =~= cs);
    lemma_drain_aborted(spec_abort(filled, message), message);
}

/// Backpressure: with the buffer at capacity, a push on the open channel
/// does not enqueue and answers `Full`, so the pushing call suspends; as
/// soon as the consumer takes one chunk, the retried push is accepted.
pub proof fn lemma_backpressure(v: ChannelView, c: Seq<u8>)
    requires
        v.state is Open,
        v.chunks.len() == v.cap,
        1 <= v.cap,
    ensures
        spec_push(v, c) == (v, PushOutcome::Full),
        spec_next(v).1 == NextView::Item(v.chunks.first()),
        spec_push(spec_next(v).0, c).1 == PushOutcome::Accepted,
{
}

/// Closed-channel rejection: after `close`, every push is refused with the
/// buffer unchanged — the chunk is reported rejected, never silently
/// dropped.
pub proof fn lemma_closed_rejection(v: ChannelView, c: Seq<u8>)
    ensures
        spec_push(spec_close(v), c) == (spec_close(v), PushOutcome::Refused),
        spec_close(v).chunks == v.chunks,
{
}

/// Single consumption: once the receiver is committed to one mode, the
/// other mode — and a second stream conversion — fail, whatever is tried
/// and in whichever order.
pub proof fn lemma_single_consumption(m: ConsumeMode)
    ensures
        spec_take_stream(m).1 ==> !spec_take_stream(spec_take_stream(m).0).1,
        spec_take_stream(m).1 ==> !spec_begin_iterate(spec_take_stream(m).0).1,
        spec_begin_iterate(m).1 ==> !spec_take_stream(spec_begin_iterate(m).0).1,
{
}

/// One producer/consumer step of an interleaved session.
pub enum ChannelOp {
    /// A push attempt with the given chunk.
    Push(Seq<u8>),
    /// A receive attempt.
    Next,
}

/// A finished interleaved session: the final channel, the chunks the
/// pushes got accepted, and the chunks the receiver took, each in order.
pub struct TraceRun {
    pub v: ChannelView,
    pub accepted: Seq<Seq<u8>>,
    pub received: Seq<Seq<u8>>,
}

/// Run an arbitrary interleaving of push and receive attempts against the
/// channel model.
pub open spec fn run_trace(v: ChannelView, ops: Seq<ChannelOp>) -> TraceRun
    decreases ops.len(),
{
    if ops.len() == 0 {
        TraceRun { v, accepted: Seq::empty(), received: Seq::empty() }
    } else {
        match ops.first() {
            ChannelOp::Push(c) => {
                let (v2, out) = spec_push(v, c);
                let rest = run_trace(v2, ops.drop_first());
                TraceRun {
                    v: rest.v,
                    accepted: if out is Accepted {
                        seq![c] + rest.accepted
                    } else {
                        rest.accepted
                    },
                    received: rest.received,
                }
            },
            ChannelOp::Next => {
                let (v2, o) = spec_next(v);
                let rest = run_trace(v2, ops.drop_first());
                TraceRun {
                    v: rest.v,
                    accepted: rest.accepted,
                    received: match o {
                        NextView::Item(c) => seq![c] + rest.received,
                        _ => rest.received,
                    },
                }
            },
        }
    }
}

/// FIFO conservation: over any interleaving of pushes and receives, what
/// the receiver took followed by what is still buffered equals what was
/// buffered at the start followed by the accepted pushes — chunk by
/// chunk, in order.
pub proof fn lemma_trace_fifo(v: ChannelView, ops: Seq<ChannelOp>)
    ensures
        run_trace(v, ops).received + run_trace(v, ops).v.chunks == v.chunks + run_trace(
            v,
            ops,
        ).accepted,
    decreases ops.len(),
{
    if ops.len() == 0 {
        assert(run_trace(v, ops).received + v.chunks =~= v.chunks + run_trace(v, ops).accepted);
    } else {
        let r = run_trace(v, ops);
        match ops.first() {
            ChannelOp::Push(c) => {
                let (v2, out) = spec_push(v, c);
                let rest = run_trace(v2, ops.drop_first());
                lemma_trace_fifo(v2, ops.drop_first());
                if out is Accepted {
                    assert(v2.chunks =~= v.chunks + seq![c]);
                    assert(rest.received + rest.v.chunks =~= (v.chunks + seq![c]) + rest.accepted);
                    assert(r.received + r.v.chunks =~= v.chunks + r.accepted);
                } else {
                    assert(r.received + r.v.chunks =~= v.chunks + r.accepted);
                }
            },
            ChannelOp::Next => {
                let (v2, o) = spec_next(v);
                let rest = run_trace(v2, ops.drop_first());
                lemma_trace_fifo(v2, ops.drop_first());
                match o {
                    NextView::Item(c) => {
                        assert(v.chunks =~= seq![c] + v2.chunks);
                        assert(r.received =~= seq![c] + rest.received);
                        assert((seq![c] + rest.received) + rest.v.chunks =~= seq![c]
                            + (rest.received + rest.v.chunks));
                        assert(seq![c] + (v2.chunks + rest.accepted) =~= (seq![c] + v2.chunks)
                            + rest.accepted);
                        assert(r.received + r.v.chunks =~= v.chunks + r.accepted);
                    },
                    _ => {
                        assert(r.received + r.v.chunks =~= v.chunks + r.accepted);
                    },
                }
            },
        }
    }
}

/// Round trip: over any interleaved session against a fresh channel —
/// zero-length chunks and more chunks than the capacity included — the
/// bytes the receiver took, concatenated, plus the bytes still buffered
/// equal the concatenation of the accepted pushes.  Once the buffer has
/// drained, the received bytes are exactly the pushed bytes.
pub proof fn lemma_round_trip(cap: nat, ops: Seq<ChannelOp>)
    ensures
        concat_all(run_trace(empty_channel(cap), ops).received) + concat_all(
            run_trace(empty_channel(cap), ops).v.chunks,
        ) == concat_all(run_trace(empty_channel(cap), ops).accepted),
        run_trace(empty_channel(cap), ops).v.chunks.len() == 0 ==> concat_all(
            run_trace(empty_channel(cap), ops).received,
        ) == concat_all(run_trace(empty_channel(cap), ops).accepted),
{
    let r = run_trace(empty_channel(cap), ops);
    lemma_trace_fifo(empty_channel(cap), ops);
    assert(r.received + r.v.chunks =~= r.accepted);
    lemma_concat_all_append(r.received, r.v.chunks);
    if r.v.chunks.len() == 0 {
        assert(r.received =~= r.accepted);
    }
}

} // verus!
