//! The instrumented wrapper around an arbitrary asynchronous computation.
//!
//! On each poll it opens or continues a span, drives the wrapped computation
//! exactly once, and closes the span on completion, failure, or continued
//! suspension — bracketing the computation's own running time between an
//! `AsyncOnCPU`/`AsyncOffCPU` pair and restoring the caller's active span
//! before returning. The wrapper is transparent: the computation's result or
//! error is handed back to the caller unchanged.

use vstd::pervasive::unreached;
use vstd::prelude::*;
use crate::event::{
    count_matching, end_of, lemma_count_add, lemma_count_pair, lemma_count_singleton,
    lemma_fresh_id_unseen, log_ids_below, off_cpu_of, on_cpu_of, start_of, AsyncOutcome,
    EventView, OutcomeView, TraceEvent,
};
use crate::notify::Notifier;
use crate::span::{SpanId, SpanIdGen};
use crate::task::WaitHandle;
use crate::tracer::{ctx_wf, TraceCtx, TracerState};

verus! {

/// Result of driving a computation once: finished with a value, not ready
/// yet, or failed with the computation's own error.
pub enum FuturePoll<T, E> {
    Ready(T),
    NotReady,
    Failed(E),
}

/// The suspend/resume interface of a computation that can be instrumented:
/// poll-style execution, driven once per call, plus a description of its
/// error values for the trace record. Implementations are supplied by the
/// computations being traced; this layer promises nothing about what a poll
/// of the inner computation does and passes its verdict through unchanged.
pub trait PollFuture {
    type Item;

    type Error;

    /// Drives the computation once.
    fn poll_once(&mut self) -> FuturePoll<Self::Item, Self::Error>;

    /// A human-readable description of an error, recorded in the terminal
    /// trace event when the computation fails.
    fn error_text(e: &Self::Error) -> String;
}

/// Lifecycle state of one instrumented computation: `Created` until the
/// first poll, `Executing` while it owns a span, `Resolved` once a terminal
/// event was emitted. `Poisoned` is assumed on any path that exits the poll
/// routine by unwinding; a poisoned or resolved instance must not be polled
/// again.
pub enum TraceState {
    Created { name: String },
    Executing { parent: SpanId, id: SpanId },
    Resolved,
    Poisoned,
}

/// Mathematical view of a [`TraceState`].
pub enum StateView {
    Created { name: Seq<char> },
    Executing { parent: nat, id: nat },
    Resolved,
    Poisoned,
}

impl View for TraceState {
    type V = StateView;

    open spec fn view(&self) -> StateView {
        match self {
            TraceState::Created { name } => StateView::Created { name: name@ },
            TraceState::Executing { parent, id } => StateView::Executing {
                parent: parent@,
                id: id@,
            },
            TraceState::Resolved => StateView::Resolved,
            TraceState::Poisoned => StateView::Poisoned,
        }
    }
}

/// How one poll of the wrapped computation came out, as the trace records
/// it: the error case carries the recorded description.
pub enum PollVerdict {
    Ready,
    Pending,
    Failed(Seq<char>),
}

/// The span a poll call runs in: a first poll uses the identifier the
/// process-wide counter is about to mint (`fresh`), a later poll the one
/// recorded at the first.
pub open spec fn poll_id(s: StateView, fresh: nat) -> nat {
    match s {
        StateView::Created { .. } => fresh,
        StateView::Executing { id, .. } => id,
        _ => arbitrary(),
    }
}

/// The parent of the span a poll call runs in: at the first poll the
/// polling thread's active span, afterwards the parent recorded then.
pub open spec fn poll_parent(s: StateView, c: TraceCtx) -> nat {
    match s {
        StateView::Created { .. } => c.current_span.unwrap(),
        StateView::Executing { parent, .. } => parent,
        _ => arbitrary(),
    }
}

/// The events a poll call emits before driving the wrapped computation: an
/// `AsyncStart` on a first poll, then the `AsyncOnCPU` of the span.
pub open spec fn poll_prefix(s: StateView, c: TraceCtx, fresh: nat) -> Seq<EventView> {
    let id = poll_id(s, fresh);
    match s {
        StateView::Created { name } => seq![
            EventView::AsyncStart {
                id,
                parent: poll_parent(s, c),
                name,
                metadata: None,
                ts: c.clock + 1,
            },
            EventView::AsyncOnCPU { id, ts: c.clock + 2 },
        ],
        _ => seq![EventView::AsyncOnCPU { id, ts: c.clock + 1 }],
    }
}

/// The events a poll call emits after driving the wrapped computation: the
/// `AsyncOffCPU` of the span, and a terminal `AsyncEnd` when it finished.
pub open spec fn poll_suffix(s: StateView, c: TraceCtx, fresh: nat, v: PollVerdict) -> Seq<
    EventView,
> {
    let id = poll_id(s, fresh);
    let off = EventView::AsyncOffCPU { id, ts: c.clock + poll_prefix(s, c, fresh).len() + 1 };
    match v {
        PollVerdict::Pending => seq![off],
        PollVerdict::Ready => seq![
            off,
            EventView::AsyncEnd {
                id,
                ts: c.clock + poll_prefix(s, c, fresh).len() + 2,
                outcome: OutcomeView::Success,
            },
        ],
        PollVerdict::Failed(d) => seq![
            off,
            EventView::AsyncEnd {
                id,
                ts: c.clock + poll_prefix(s, c, fresh).len() + 2,
                outcome: OutcomeView::Error(d),
            },
        ],
    }
}

/// The events one poll call appends to the thread's log, in order: on a
/// first poll an `AsyncStart` naming the new span and its parent; always an
/// `AsyncOnCPU`/`AsyncOffCPU` pair bracketing the inner poll; and, when the
/// computation finished, a terminal `AsyncEnd` with its outcome. Timestamps
/// are consecutive readings of the clock.
pub open spec fn poll_events(s: StateView, c: TraceCtx, fresh: nat, v: PollVerdict) -> Seq<
    EventView,
> {
    poll_prefix(s, c, fresh) + poll_suffix(s, c, fresh, v)
}

/// The trace context after one poll call: the events appended, the clock
/// advanced one tick per event — and the active span exactly as the caller
/// left it.
pub open spec fn poll_ctx(s: StateView, c: TraceCtx, fresh: nat, v: PollVerdict) -> TraceCtx {
    TraceCtx {
        clock: c.clock + poll_events(s, c, fresh, v).len(),
        log: c.log + poll_events(s, c, fresh, v),
        ..c
    }
}

/// The lifecycle state after one poll call: still `Executing` while the
/// computation is pending, `Resolved` once it finished either way.
pub open spec fn poll_state(s: StateView, c: TraceCtx, fresh: nat, v: PollVerdict) -> StateView {
    match v {
        PollVerdict::Pending => StateView::Executing {
            parent: poll_parent(s, c),
            id: poll_id(s, fresh),
        },
        _ => StateView::Resolved,
    }
}

/// When a poll call is admissible: the thread must have an active span (a
/// computation is always polled from within some ancestor span), a resumed
/// poll must find the active span unchanged from the recorded parent — a
/// mismatch is a span leak and a fatal invariant breach — and a resolved or
/// poisoned instance must never be polled again.
pub open spec fn may_poll(s: StateView, c: TraceCtx) -> bool {
    &&& c.current_span is Some
    &&& (s matches StateView::Executing { parent, .. } ==> Some(parent) == c.current_span)
    &&& !(s is Resolved)
    &&& !(s is Poisoned)
}

/// An asynchronous computation wrapped for tracing: a drop-in replacement
/// for the computation itself that owns exactly one span from its first poll
/// to its resolution.
pub struct TracedFuture<F> {
    pub state: TraceState,
    pub inner: F,
}

/// Wraps any computation with the suspend/resume interface for tracing.
pub trait TraceFuture: PollFuture + Sized {
    /// Wraps `self` under a display name for the trace.
    fn traced(self, name: String) -> (t: TracedFuture<Self>)
        ensures
            t.state@ == (StateView::Created { name: name@ }),
            t.inner == self,
    {
        TracedFuture { state: TraceState::Created { name }, inner: self }
    }
}

impl<F: PollFuture + Sized> TraceFuture for F {

}

impl<F> TracedFuture<F> {
    /// Gives the wrapped computation back.
    pub fn into_inner(self) -> (f: F)
        ensures
            f == self.inner,
    {
        self.inner
    }
}

impl<F: PollFuture> TracedFuture<F> {
    /// Whether a poll of this instance is admissible in the given context.
    /// Polling when this is false is a contract violation that a caller must
    /// treat as fatal, not as a condition to retry.
    pub fn may_poll(&self, tracer: &TracerState) -> (b: bool)
        ensures
            b == may_poll(self.state@, tracer@),
    {
        match (&self.state, &tracer.current_span) {
            (TraceState::Created { .. }, Some(_)) => true,
            (TraceState::Executing { parent, .. }, Some(current)) => parent.0 == current.0,
            _ => false,
        }
    }

    /// One instrumented poll: opens the span at a first poll — minting its
    /// identifier from the process-wide counter `spans` — emits the
    /// `AsyncOnCPU`/`AsyncOffCPU` pair around exactly one poll of the
    /// wrapped computation, restores the caller's active span, and emits the
    /// terminal event when the computation finished. The verdict of the
    /// inner poll is handed back unchanged; on suspension the relay through
    /// which this computation can be resumed is handed back with the driver
    /// parked in it.
    pub fn poll(&mut self, tracer: &mut TracerState, spans: &mut SpanIdGen, driver: WaitHandle)
        -> (r: (FuturePoll<F::Item, F::Error>, Option<Notifier>))
        requires
            old(tracer).wf(),
            may_poll(old(self).state@, old(tracer)@),
            old(self).state@ is Created ==> old(tracer)@.clock + 4 <= u64::MAX && old(
                spans,
            ).next < u64::MAX,
            old(self).state@ is Executing ==> old(tracer)@.clock + 3 <= u64::MAX,
        ensures
            final(tracer).wf(),
            ({
                let s0 = old(self).state@;
                let c0 = old(tracer)@;
                let f0 = old(spans).next as nat;
                &&& (r.0 matches FuturePoll::Ready(_) ==> final(tracer)@ == poll_ctx(
                    s0,
                    c0,
                    f0,
                    PollVerdict::Ready,
                ) && final(self).state@ == poll_state(s0, c0, f0, PollVerdict::Ready))
                &&& (r.0 is NotReady ==> final(tracer)@ == poll_ctx(
                    s0,
                    c0,
                    f0,
                    PollVerdict::Pending,
                ) && final(self).state@ == poll_state(s0, c0, f0, PollVerdict::Pending))
                &&& (r.0 matches FuturePoll::Failed(_) ==> exists|d: Seq<char>|
                    final(tracer)@ == poll_ctx(s0, c0, f0, PollVerdict::Failed(d))
                        && final(self).state@ == poll_state(s0, c0, f0, PollVerdict::Failed(d)))
                &&& (r.1 is Some <==> r.0 is NotReady)
                &&& (r.1 matches Some(n) ==> n.parked_span@ == poll_id(s0, f0) && n.task.slot
                    == Some(driver))
                &&& final(spans).next == old(spans).next + if s0 is Created {
                    1int
                } else {
                    0int
                }
            }),
    {
        let ghost s0 = self.state@;
        let ghost c0 = tracer@;
        let ghost f0 = spans.next as nat;

        // Poisoned from here on; a lifecycle state is written back only on
        // a confirmed clean exit, so that an unwind out of this routine —
        // possible only in the unverified wrapped computation — leaves the
        // instance unusable instead of silently corrupting span state.
        let mut taken = TraceState::Poisoned;
        core::mem::swap(&mut self.state, &mut taken);

        let (parent_id, span_id) = match taken {
            TraceState::Created { name } => {
                let span_id = spans.fresh();
                let parent_id = match tracer.current_span {
                    Some(p) => p,
                    None => unreached(),
                };
                let ts = tracer.now();
                tracer.emit(
                    TraceEvent::AsyncStart { name, id: span_id, parent_id, metadata: None, ts },
                );
                (parent_id, span_id)
            },
            TraceState::Executing { parent, id } => (parent, id),
            TraceState::Resolved => unreached(),
            TraceState::Poisoned => unreached(),
        };

        let ts_on = tracer.now();
        tracer.emit(TraceEvent::AsyncOnCPU { id: span_id, ts: ts_on });
        tracer.current_span = Some(span_id);

        let mut notifier = Notifier::new(span_id);
        notifier.task.park(driver);
        let result = self.inner.poll_once();

        tracer.current_span = Some(parent_id);
        let ts_off = tracer.now();
        tracer.emit(TraceEvent::AsyncOffCPU { id: span_id, ts: ts_off });

        match result {
            FuturePoll::Ready(value) => {
                self.state = TraceState::Resolved;
                let ts_end = tracer.now();
                tracer.emit(
                    TraceEvent::AsyncEnd { id: span_id, ts: ts_end, outcome: AsyncOutcome::Success },
                );
                proof {
                    assert(tracer@.log =~= poll_ctx(s0, c0, f0, PollVerdict::Ready).log);
                    assert(tracer@ =~= poll_ctx(s0, c0, f0, PollVerdict::Ready));
                }
                (FuturePoll::Ready(value), None)
            },
            FuturePoll::Failed(error) => {
                self.state = TraceState::Resolved;
                let description = F::error_text(&error);
                let ts_end = tracer.now();
                tracer.emit(
                    TraceEvent::AsyncEnd {
                        id: span_id,
                        ts: ts_end,
                        outcome: AsyncOutcome::Error(description),
                    },
                );
                proof {
                    let d = description@;
                    assert(tracer@.log =~= poll_ctx(s0, c0, f0, PollVerdict::Failed(d)).log);
                    assert(tracer@ =~= poll_ctx(s0, c0, f0, PollVerdict::Failed(d)));
                }
                (FuturePoll::Failed(error), None)
            },
            FuturePoll::NotReady => {
                self.state = TraceState::Executing { parent: parent_id, id: span_id };
                proof {
                    assert(tracer@.log =~= poll_ctx(s0, c0, f0, PollVerdict::Pending).log);
                    assert(tracer@ =~= poll_ctx(s0, c0, f0, PollVerdict::Pending));
                }
                (FuturePoll::NotReady, Some(notifier))
            },
        }
    }
}

proof fn lemma_prefix_counts(s: StateView, c: TraceCtx, fresh: nat)
    requires
        !(s is Resolved),
        !(s is Poisoned),
    ensures
        count_matching(poll_prefix(s, c, fresh), start_of(poll_id(s, fresh))) == if s is Created {
            1nat
        } else {
            0nat
        },
        count_matching(poll_prefix(s, c, fresh), end_of(poll_id(s, fresh))) == 0,
        count_matching(poll_prefix(s, c, fresh), on_cpu_of(poll_id(s, fresh))) == 1,
        count_matching(poll_prefix(s, c, fresh), off_cpu_of(poll_id(s, fresh))) == 0,
{
    let id = poll_id(s, fresh);
    match s {
        StateView::Created { name } => {
            let a = EventView::AsyncStart {
                id,
                parent: poll_parent(s, c),
                name,
                metadata: None,
                ts: c.clock + 1,
            };
            let b = EventView::AsyncOnCPU { id, ts: c.clock + 2 };
            assert(poll_prefix(s, c, fresh) == seq![a, b]);
            lemma_count_pair(a, b, start_of(id));
            lemma_count_pair(a, b, end_of(id));
            lemma_count_pair(a, b, on_cpu_of(id));
            lemma_count_pair(a, b, off_cpu_of(id));
        },
        _ => {
            let b = EventView::AsyncOnCPU { id, ts: c.clock + 1 };
            assert(poll_prefix(s, c, fresh) == seq![b]);
            lemma_count_singleton(b, start_of(id));
            lemma_count_singleton(b, end_of(id));
            lemma_count_singleton(b, on_cpu_of(id));
            lemma_count_singleton(b, off_cpu_of(id));
        },
    }
}

proof fn lemma_suffix_counts(s: StateView, c: TraceCtx, fresh: nat, v: PollVerdict)
    requires
        !(s is Resolved),
        !(s is Poisoned),
    ensures
        count_matching(poll_suffix(s, c, fresh, v), start_of(poll_id(s, fresh))) == 0,
        count_matching(poll_suffix(s, c, fresh, v), end_of(poll_id(s, fresh))) == if v
            is Pending {
            0nat
        } else {
            1nat
        },
        count_matching(poll_suffix(s, c, fresh, v), on_cpu_of(poll_id(s, fresh))) == 0,
        count_matching(poll_suffix(s, c, fresh, v), off_cpu_of(poll_id(s, fresh))) == 1,
{
    let id = poll_id(s, fresh);
    let off = EventView::AsyncOffCPU { id, ts: c.clock + poll_prefix(s, c, fresh).len() + 1 };
    match v {
        PollVerdict::Pending => {
            assert(poll_suffix(s, c, fresh, v) == seq![off]);
            lemma_count_singleton(off, start_of(id));
            lemma_count_singleton(off, end_of(id));
            lemma_count_singleton(off, on_cpu_of(id));
            lemma_count_singleton(off, off_cpu_of(id));
        },
        PollVerdict::Ready => {
            let end = EventView::AsyncEnd {
                id,
                ts: c.clock + poll_prefix(s, c, fresh).len() + 2,
                outcome: OutcomeView::Success,
            };
            assert(poll_suffix(s, c, fresh, v) == seq![off, end]);
            lemma_count_pair(off, end, start_of(id));
            lemma_count_pair(off, end, end_of(id));
            lemma_count_pair(off, end, on_cpu_of(id));
            lemma_count_pair(off, end, off_cpu_of(id));
        },
        PollVerdict::Failed(d) => {
            let end = EventView::AsyncEnd {
                id,
                ts: c.clock + poll_prefix(s, c, fresh).len() + 2,
                outcome: OutcomeView::Error(d),
            };
            assert(poll_suffix(s, c, fresh, v) == seq![off, end]);
            lemma_count_pair(off, end, start_of(id));
            lemma_count_pair(off, end, end_of(id));
            lemma_count_pair(off, end, on_cpu_of(id));
            lemma_count_pair(off, end, off_cpu_of(id));
        },
    }
}

/// Exactly one `AsyncOnCPU`/`AsyncOffCPU` pair is emitted for the polled
/// span per poll call, whatever the verdict, and both the active span and
/// the wakeup-logging guard after the call equal their values before it
/// (round-trip restoration).
pub proof fn lemma_on_off_cpu_pair(s: StateView, c: TraceCtx, fresh: nat, v: PollVerdict)
    requires
        may_poll(s, c),
    ensures
        count_matching(poll_events(s, c, fresh, v), on_cpu_of(poll_id(s, fresh))) == 1,
        count_matching(poll_events(s, c, fresh, v), off_cpu_of(poll_id(s, fresh))) == 1,
        poll_ctx(s, c, fresh, v).current_span == c.current_span,
        poll_ctx(s, c, fresh, v).logging_wakeup == c.logging_wakeup,
{
    lemma_prefix_counts(s, c, fresh);
    lemma_suffix_counts(s, c, fresh, v);
    lemma_count_add(poll_prefix(s, c, fresh), poll_suffix(s, c, fresh, v), on_cpu_of(poll_id(s, fresh)));
    lemma_count_add(poll_prefix(s, c, fresh), poll_suffix(s, c, fresh, v), off_cpu_of(poll_id(s, fresh)));
}

/// The parent recorded in the `AsyncStart` of a span equals the active span
/// observed by the polling thread at the moment of the first poll, and its
/// identifier is the one the process-wide counter mints for that poll.
pub proof fn lemma_start_parent(s: StateView, c: TraceCtx, fresh: nat, v: PollVerdict)
    requires
        s is Created,
        c.current_span is Some,
    ensures
        poll_events(s, c, fresh, v).len() > 0,
        poll_events(s, c, fresh, v)[0] matches EventView::AsyncStart { id, parent, .. } && id
            == poll_id(s, fresh) && c.current_span == Some(parent),
{
    assert(poll_events(s, c, fresh, v)[0] == poll_prefix(s, c, fresh)[0]);
}

/// A span receives exactly one `AsyncStart`, and exactly one terminal
/// `AsyncEnd` joins it if and only if some poll runs the computation to
/// completion: a first poll puts the one `AsyncStart` on record, a pending
/// poll adds no terminal event and leaves the instance executing, and the
/// completing poll appends the one `AsyncEnd` and resolves the instance,
/// after which no further poll is admissible. A computation dropped while
/// suspended is simply never polled again, so its span keeps its
/// `AsyncStart` and never receives a terminal event.
///
/// The hypothesis for a first poll is that every identifier the log
/// mentions lies below the counter — which holds wherever identifiers come
/// from the one process-wide counter, since each is minted before it can be
/// recorded anywhere.
pub proof fn lemma_single_terminal(s: StateView, c: TraceCtx, fresh: nat, v: PollVerdict)
    requires
        ctx_wf(c),
        may_poll(s, c),
        s is Created ==> log_ids_below(c.log, fresh),
        s matches StateView::Executing { id, .. } ==> count_matching(c.log, start_of(id)) == 1
            && count_matching(c.log, end_of(id)) == 0,
    ensures
        count_matching(poll_ctx(s, c, fresh, v).log, start_of(poll_id(s, fresh))) == 1,
        count_matching(poll_ctx(s, c, fresh, v).log, end_of(poll_id(s, fresh))) == if v
            is Pending {
            0nat
        } else {
            1nat
        },
        v is Pending ==> poll_state(s, c, fresh, v) == (StateView::Executing {
            parent: poll_parent(s, c),
            id: poll_id(s, fresh),
        }),
        !(v is Pending) ==> poll_state(s, c, fresh, v) is Resolved && !may_poll(
            poll_state(s, c, fresh, v),
            poll_ctx(s, c, fresh, v),
        ),
{
    let id = poll_id(s, fresh);
    if s is Created {
        lemma_fresh_id_unseen(c.log, fresh, id);
    }
    lemma_prefix_counts(s, c, fresh);
    lemma_suffix_counts(s, c, fresh, v);
    lemma_count_add(poll_prefix(s, c, fresh), poll_suffix(s, c, fresh, v), start_of(id));
    lemma_count_add(poll_prefix(s, c, fresh), poll_suffix(s, c, fresh, v), end_of(id));
    lemma_count_add(c.log, poll_events(s, c, fresh, v), start_of(id));
    lemma_count_add(c.log, poll_events(s, c, fresh, v), end_of(id));
}

} // verus!
