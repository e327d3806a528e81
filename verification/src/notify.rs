//! The wakeup relay: receives resumption signals on behalf of one parked
//! span, emits a causally linked `Wakeup` event subject to the re-entrancy
//! guard, and forwards the signal into the single-slot waker.
//!
//! One relay is created per poll attempt that results in suspension and is
//! not reused across polls. It may be invoked any number of times; spurious
//! wakeups are tolerated by the wrapped computation's own contract, not by
//! this layer.

use vstd::prelude::*;
use crate::event::{count_matching, lemma_count_push, wakeup_for, EventView, TraceEvent};
use crate::span::SpanId;
use crate::task::{notify_slot, AtomicTask, WaitHandle};
use crate::tracer::{ctx_emit, ctx_tick, ctx_wf, TraceCtx, TracerState};

verus! {

/// The `Wakeup` event an invocation emits when the guard lets it: the waking
/// span is the invoking thread's active span, the parked span the one the
/// relay was created for.
pub open spec fn wakeup_event(c: TraceCtx, parked: nat) -> EventView {
    EventView::Wakeup { waking: c.current_span.unwrap(), parked, ts: c.clock + 1 }
}

/// An invocation logs a `Wakeup` only when no wakeup is currently being
/// logged on the thread and the thread has an active span.
pub open spec fn notify_logs(c: TraceCtx) -> bool {
    !c.logging_wakeup && c.current_span is Some
}

/// The trace context after one relay invocation for `parked`: one `Wakeup`
/// appended when the guard lets it, otherwise untouched. The guard itself is
/// always left as it was found.
pub open spec fn notify_ctx(c: TraceCtx, parked: nat) -> TraceCtx {
    if notify_logs(c) {
        ctx_emit(ctx_tick(c), wakeup_event(c, parked))
    } else {
        c
    }
}

/// Relays resumption signals for one parked span.
pub struct Notifier {
    /// The span that was suspended and is to be resumed.
    pub parked_span: SpanId,
    /// The slot holding the wait handle of the driver to resume.
    pub task: AtomicTask,
}

impl Notifier {
    /// A relay for `parked_span` with nobody parked yet.
    pub fn new(parked_span: SpanId) -> (n: Notifier)
        ensures
            n.parked_span == parked_span,
            n.task.slot is None,
    {
        Notifier { parked_span, task: AtomicTask::new() }
    }

    /// One resumption signal, from whichever thread it arrives on — `tracer`
    /// is the invoking thread's own context. Emits a `Wakeup` event unless a
    /// wakeup is already being logged on that thread (re-entrancy guard) or
    /// the thread has no active span; in every case the signal is forwarded
    /// to the single-slot waker, whose recorded handle is handed out to be
    /// woken. The guard and the active span are restored on every exit; no
    /// path of this body can unwind between setting and clearing the guard,
    /// since the forwarding itself is the verified slot hand-off, not a call
    /// into foreign code.
    pub fn notify(&mut self, tracer: &mut TracerState) -> (woken: Option<WaitHandle>)
        requires
            old(tracer).wf(),
            notify_logs(old(tracer)@) ==> old(tracer).clock < u64::MAX,
        ensures
            final(tracer).wf(),
            final(tracer)@ == notify_ctx(old(tracer)@, old(self).parked_span@),
            final(self).parked_span == old(self).parked_span,
            (final(self).task.slot, woken) == notify_slot(old(self).task.slot),
            final(tracer).current_span == old(tracer).current_span,
            final(tracer).currently_logging_wakeup == old(tracer).currently_logging_wakeup,
    {
        let should_log = !tracer.currently_logging_wakeup;
        if should_log {
            if let Some(current) = tracer.current_span {
                let ts = tracer.now();
                let event = TraceEvent::Wakeup {
                    waking_span: current,
                    parked_span: self.parked_span,
                    ts,
                };
                tracer.emit(event);
            }
            tracer.currently_logging_wakeup = true;
        }

        let woken = self.task.notify();

        if should_log {
            tracer.currently_logging_wakeup = false;
        }
        woken
    }
}

/// Re-entrancy guard: when a relay invocation synchronously triggers another
/// one on the same thread — the inner invocation running while the outer
/// holds the guard — only the outer invocation emits a `Wakeup` event; the
/// inner one leaves the trace untouched but still forwards its signal to its
/// slot, and the outer invocation leaves the guard as it found it.
pub proof fn lemma_reentrancy_guard(
    c: TraceCtx,
    parked_outer: nat,
    parked_inner: nat,
    inner_slot: Option<WaitHandle>,
)
    requires
        ctx_wf(c),
        notify_logs(c),
    ensures
        ({
            let mid = TraceCtx { logging_wakeup: true, ..notify_ctx(c, parked_outer) };
            &&& notify_ctx(c, parked_outer).log == c.log.push(wakeup_event(c, parked_outer))
            &&& notify_ctx(mid, parked_inner) == mid
            &&& notify_slot(inner_slot).1 == inner_slot
            &&& notify_ctx(c, parked_outer).logging_wakeup == c.logging_wakeup
        }),
{
}

/// One relay invocation puts exactly one `Wakeup` for its parked span on
/// record when the guard lets it, and none otherwise.
pub proof fn lemma_wakeup_count(c: TraceCtx, parked: nat)
    ensures
        count_matching(notify_ctx(c, parked).log, wakeup_for(parked)) == count_matching(
            c.log,
            wakeup_for(parked),
        ) + if notify_logs(c) {
            1nat
        } else {
            0nat
        },
{
    if notify_logs(c) {
        lemma_count_push(c.log, wakeup_event(c, parked), wakeup_for(parked));
    }
}

} // verus!
