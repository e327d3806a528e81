//! The per-thread trace context: the currently active span, a monotonic
//! clock, the re-entrancy guard for wakeup logging, and the sink of emitted
//! events.
//!
//! One context belongs to exactly one thread and is never shared; every
//! event is recorded from the thread on which it causally happened. The
//! context is passed explicitly through the poll interface instead of living
//! in ambient thread-local storage, so each operation states exactly how it
//! reads and writes it. Span identifiers come from elsewhere — the one
//! process-wide [`crate::span::SpanIdGen`] — and a context may record
//! identifiers minted on any thread.

use vstd::prelude::*;
use crate::event::{event_ts, EventView, TraceEvent};
use crate::span::SpanId;

verus! {

/// Mathematical view of a [`TracerState`].
#[verifier::ext_equal]
pub struct TraceCtx {
    pub current_span: Option<nat>,
    pub logging_wakeup: bool,
    pub clock: nat,
    pub log: Seq<EventView>,
}

/// Well-formedness of a trace context: timestamps in the log are strictly
/// increasing and never ahead of the clock.
pub open spec fn ctx_wf(c: TraceCtx) -> bool {
    &&& forall|i: int| 0 <= i < c.log.len() ==> event_ts(#[trigger] c.log[i]) <= c.clock
    &&& forall|i: int, j: int|
        0 <= i < j < c.log.len() ==> event_ts(#[trigger] c.log[i]) < event_ts(#[trigger] c.log[j])
}

/// An event may be appended when its timestamp is covered by the clock and
/// comes after everything already on record.
pub open spec fn ctx_can_emit(c: TraceCtx, e: EventView) -> bool {
    &&& event_ts(e) <= c.clock
    &&& c.log.len() > 0 ==> event_ts(c.log.last()) < event_ts(e)
}

/// The context after appending `e` to the log.
pub open spec fn ctx_emit(c: TraceCtx, e: EventView) -> TraceCtx {
    TraceCtx { log: c.log.push(e), ..c }
}

/// The context after one reading of the clock.
pub open spec fn ctx_tick(c: TraceCtx) -> TraceCtx {
    TraceCtx { clock: c.clock + 1, ..c }
}

/// Appending an admissible event preserves well-formedness.
pub proof fn lemma_emit_preserves_wf(c: TraceCtx, e: EventView)
    requires
        ctx_wf(c),
        ctx_can_emit(c, e),
    ensures
        ctx_wf(ctx_emit(c, e)),
{
    let d = ctx_emit(c, e);
    assert forall|i: int, j: int| 0 <= i < j < d.log.len() implies event_ts(#[trigger] d.log[i])
        < event_ts(#[trigger] d.log[j]) by {
        if j == d.log.len() - 1 {
            if i < j - 1 {
                assert(event_ts(c.log[i]) < event_ts(c.log[j - 1]));
            }
            assert(c.log.last() == c.log[c.log.len() - 1]);
        }
    }
}

/// The per-thread trace context. The `current_span` and
/// `currently_logging_wakeup` fields are mutated directly by collaborators:
/// an external root-span provider installs `current_span` before the first
/// poll on the thread, the instrumented wrapper saves and restores it around
/// each poll, and the wakeup relay toggles the guard.
pub struct TracerState {
    /// The span the calling context believes it is inside.
    pub current_span: Option<SpanId>,
    /// Set for the duration of logging one wakeup, so that a wakeup incurred
    /// while logging a wakeup is relayed without being logged itself.
    pub currently_logging_wakeup: bool,
    /// Last issued timestamp of the monotonic clock.
    pub clock: u64,
    /// The sink: every event emitted on this thread, in emission order.
    pub log: Vec<TraceEvent>,
}

impl View for TracerState {
    type V = TraceCtx;

    open spec fn view(&self) -> TraceCtx {
        TraceCtx {
            current_span: match self.current_span {
                Some(s) => Some(s@),
                None => None,
            },
            logging_wakeup: self.currently_logging_wakeup,
            clock: self.clock as nat,
            log: self.log@.map_values(|e: TraceEvent| e@),
        }
    }
}

impl TracerState {
    pub open spec fn wf(self) -> bool {
        ctx_wf(self@)
    }

    /// A fresh context: no active span, guard clear, clock at zero, empty
    /// log.
    pub fn new() -> (t: TracerState)
        ensures
            t.wf(),
            t@.current_span is None,
            !t@.logging_wakeup,
            t@.clock == 0,
            t@.log == Seq::<EventView>::empty(),
    {
        let t = TracerState {
            current_span: None,
            currently_logging_wakeup: false,
            clock: 0,
            log: Vec::new(),
        };
        proof {
            assert(t@.log =~= Seq::<EventView>::empty());
        }
        t
    }

    /// One reading of the monotonic clock: strictly greater than every
    /// reading before it. The clock counts logical ticks, one per reading,
    /// which is what makes the strict per-thread ordering of the log
    /// provable; the record stream's timestamps are on this scale, not in
    /// nanoseconds of wall time.
    pub fn now(&mut self) -> (ts: u64)
        requires
            old(self).clock < u64::MAX,
        ensures
            final(self)@ == ctx_tick(old(self)@),
            ts as nat == old(self)@.clock + 1,
            final(self).current_span == old(self).current_span,
            final(self).currently_logging_wakeup == old(self).currently_logging_wakeup,
    {
        self.clock = self.clock + 1;
        self.clock
    }

    /// Appends `event` to the sink. The timestamp was pre-computed by the
    /// caller via [`Self::now`].
    pub fn emit(&mut self, event: TraceEvent)
        requires
            old(self).wf(),
            ctx_can_emit(old(self)@, event@),
        ensures
            final(self).wf(),
            final(self)@ == ctx_emit(old(self)@, event@),
            final(self).current_span == old(self).current_span,
            final(self).currently_logging_wakeup == old(self).currently_logging_wakeup,
            final(self).clock == old(self).clock,
    {
        let ghost c = self@;
        let ghost ev = event@;
        self.log.push(event);
        proof {
            assert(self@.log =~= c.log.push(ev));
            lemma_emit_preserves_wf(c, ev);
        }
    }
}

} // verus!
