//! The trace event model: the kinds of event the engine can emit, the
//! outcome type recording how an instrumented computation finished, and the
//! mathematical view of both.
//!
//! Events are immutable and append-only; within one thread they are emitted
//! in strictly increasing timestamp order. The `Sync*` and `Thread*` variants
//! share the schema and are produced by other instrumentation points that
//! feed the same record stream; nothing in this engine emits them.

use vstd::prelude::*;
use crate::span::SpanId;

verus! {

/// How an instrumented computation finished: recorded in the terminal event,
/// never used to alter control flow.
#[derive(Clone, PartialEq, Eq, Debug)]
pub enum AsyncOutcome {
    Success,
    Error(String),
}

/// Mathematical view of an [`AsyncOutcome`].
pub enum OutcomeView {
    Success,
    Error(Seq<char>),
}

impl View for AsyncOutcome {
    type V = OutcomeView;

    open spec fn view(&self) -> OutcomeView {
        match self {
            AsyncOutcome::Success => OutcomeView::Success,
            AsyncOutcome::Error(s) => OutcomeView::Error(s@),
        }
    }
}

/// One record of the emitted trace stream. Each event carries the span it
/// belongs to and a timestamp; `AsyncStart` additionally links the span to
/// its causal parent, and `Wakeup` correlates the span that triggered a
/// resumption with the span that was waiting for it.
#[derive(Clone, PartialEq, Eq, Debug)]
pub enum TraceEvent {
    AsyncStart { id: SpanId, parent_id: SpanId, name: String, metadata: Option<String>, ts: u64 },
    AsyncOnCPU { id: SpanId, ts: u64 },
    AsyncOffCPU { id: SpanId, ts: u64 },
    AsyncEnd { id: SpanId, ts: u64, outcome: AsyncOutcome },
    Wakeup { waking_span: SpanId, parked_span: SpanId, ts: u64 },
    SyncStart { id: SpanId, parent_id: SpanId, name: String, metadata: Option<String>, ts: u64 },
    SyncEnd { id: SpanId, ts: u64 },
    ThreadStart { id: SpanId, name: String, ts: u64 },
    ThreadEnd { id: SpanId, ts: u64 },
}

/// Mathematical view of a [`TraceEvent`]: span identifiers as naturals,
/// strings as character sequences.
pub enum EventView {
    AsyncStart { id: nat, parent: nat, name: Seq<char>, metadata: Option<Seq<char>>, ts: nat },
    AsyncOnCPU { id: nat, ts: nat },
    AsyncOffCPU { id: nat, ts: nat },
    AsyncEnd { id: nat, ts: nat, outcome: OutcomeView },
    Wakeup { waking: nat, parked: nat, ts: nat },
    SyncStart { id: nat, parent: nat, name: Seq<char>, metadata: Option<Seq<char>>, ts: nat },
    SyncEnd { id: nat, ts: nat },
    ThreadStart { id: nat, name: Seq<char>, ts: nat },
    ThreadEnd { id: nat, ts: nat },
}

pub open spec fn opt_string_view(m: Option<String>) -> Option<Seq<char>> {
    match m {
        Some(s) => Some(s@),
        None => None,
    }
}

impl View for TraceEvent {
    type V = EventView;

    open spec fn view(&self) -> EventView {
        match self {
            TraceEvent::AsyncStart { id, parent_id, name, metadata, ts } => EventView::AsyncStart {
                id: id@,
                parent: parent_id@,
                name: name@,
                metadata: opt_string_view(*metadata),
                ts: *ts as nat,
            },
            TraceEvent::AsyncOnCPU { id, ts } => EventView::AsyncOnCPU { id: id@, ts: *ts as nat },
            TraceEvent::AsyncOffCPU { id, ts } => EventView::AsyncOffCPU {
                id: id@,
                ts: *ts as nat,
            },
            TraceEvent::AsyncEnd { id, ts, outcome } => EventView::AsyncEnd {
                id: id@,
                ts: *ts as nat,
                outcome: outcome@,
            },
            TraceEvent::Wakeup { waking_span, parked_span, ts } => EventView::Wakeup {
                waking: waking_span@,
                parked: parked_span@,
                ts: *ts as nat,
            },
            TraceEvent::SyncStart { id, parent_id, name, metadata, ts } => EventView::SyncStart {
                id: id@,
                parent: parent_id@,
                name: name@,
                metadata: opt_string_view(*metadata),
                ts: *ts as nat,
            },
            TraceEvent::SyncEnd { id, ts } => EventView::SyncEnd { id: id@, ts: *ts as nat },
            TraceEvent::ThreadStart { id, name, ts } => EventView::ThreadStart {
                id: id@,
                name: name@,
                ts: *ts as nat,
            },
            TraceEvent::ThreadEnd { id, ts } => EventView::ThreadEnd { id: id@, ts: *ts as nat },
        }
    }
}

/// The timestamp an event carries.
pub open spec fn event_ts(e: EventView) -> nat {
    match e {
        EventView::AsyncStart { ts, .. } => ts,
        EventView::AsyncOnCPU { ts, .. } => ts,
        EventView::AsyncOffCPU { ts, .. } => ts,
        EventView::AsyncEnd { ts, .. } => ts,
        EventView::Wakeup { ts, .. } => ts,
        EventView::SyncStart { ts, .. } => ts,
        EventView::SyncEnd { ts, .. } => ts,
        EventView::ThreadStart { ts, .. } => ts,
        EventView::ThreadEnd { ts, .. } => ts,
    }
}

/// Every span identifier an event mentions lies below `bound`.
pub open spec fn event_ids_below(e: EventView, bound: nat) -> bool {
    match e {
        EventView::AsyncStart { id, parent, .. } => id < bound && parent < bound,
        EventView::AsyncOnCPU { id, .. } => id < bound,
        EventView::AsyncOffCPU { id, .. } => id < bound,
        EventView::AsyncEnd { id, .. } => id < bound,
        EventView::Wakeup { waking, parked, .. } => waking < bound && parked < bound,
        EventView::SyncStart { id, parent, .. } => id < bound && parent < bound,
        EventView::SyncEnd { id, .. } => id < bound,
        EventView::ThreadStart { id, .. } => id < bound,
        EventView::ThreadEnd { id, .. } => id < bound,
    }
}

pub open spec fn is_start_of(e: EventView, id: nat) -> bool {
    e matches EventView::AsyncStart { id: i, .. } && i == id
}

pub open spec fn is_end_of(e: EventView, id: nat) -> bool {
    e matches EventView::AsyncEnd { id: i, .. } && i == id
}

pub open spec fn is_on_cpu_of(e: EventView, id: nat) -> bool {
    e matches EventView::AsyncOnCPU { id: i, .. } && i == id
}

pub open spec fn is_off_cpu_of(e: EventView, id: nat) -> bool {
    e matches EventView::AsyncOffCPU { id: i, .. } && i == id
}

pub open spec fn is_wakeup_for(e: EventView, parked: nat) -> bool {
    e matches EventView::Wakeup { parked: p, .. } && p == parked
}

/// The predicate "is the `AsyncStart` of span `id`", as a value, so that
/// every statement about the same span counts with the same predicate.
pub open spec fn start_of(id: nat) -> spec_fn(EventView) -> bool {
    |e: EventView| is_start_of(e, id)
}

/// The predicate "is the terminal `AsyncEnd` of span `id`", as a value.
pub open spec fn end_of(id: nat) -> spec_fn(EventView) -> bool {
    |e: EventView| is_end_of(e, id)
}

/// The predicate "is the `AsyncOnCPU` of span `id`", as a value.
pub open spec fn on_cpu_of(id: nat) -> spec_fn(EventView) -> bool {
    |e: EventView| is_on_cpu_of(e, id)
}

/// The predicate "is the `AsyncOffCPU` of span `id`", as a value.
pub open spec fn off_cpu_of(id: nat) -> spec_fn(EventView) -> bool {
    |e: EventView| is_off_cpu_of(e, id)
}

/// The predicate "is a `Wakeup` for parked span `id`", as a value.
pub open spec fn wakeup_for(id: nat) -> spec_fn(EventView) -> bool {
    |e: EventView| is_wakeup_for(e, id)
}

/// How many events of `log` satisfy `p`.
pub open spec fn count_matching(log: Seq<EventView>, p: spec_fn(EventView) -> bool) -> nat
    decreases log.len(),
{
    if log.len() == 0 {
        0
    } else {
        count_matching(log.drop_last(), p) + if p(log.last()) {
            1nat
        } else {
            0nat
        }
    }
}

/// Appending one event raises a count by one when the event matches and
/// leaves it unchanged otherwise.
pub proof fn lemma_count_push(log: Seq<EventView>, e: EventView, p: spec_fn(EventView) -> bool)
    ensures
        count_matching(log.push(e), p) == count_matching(log, p) + if p(e) {
            1nat
        } else {
            0nat
        },
{
    assert(log.push(e).drop_last() =~= log);
    assert(log.push(e).last() == e);
}

/// The count over a one-event log.
pub proof fn lemma_count_singleton(e: EventView, p: spec_fn(EventView) -> bool)
    ensures
        count_matching(seq![e], p) == if p(e) {
            1nat
        } else {
            0nat
        },
{
    assert(seq![e].drop_last() =~= Seq::<EventView>::empty());
    assert(seq![e].last() == e);
    assert(count_matching(Seq::<EventView>::empty(), p) == 0);
}

/// The count over a two-event log.
pub proof fn lemma_count_pair(a: EventView, b: EventView, p: spec_fn(EventView) -> bool)
    ensures
        count_matching(seq![a, b], p) == (if p(a) {
            1nat
        } else {
            0nat
        }) + (if p(b) {
            1nat
        } else {
            0nat
        }),
{
    assert(seq![a, b].drop_last() =~= seq![a]);
    assert(seq![a, b].last() == b);
    lemma_count_singleton(a, p);
}

/// Counts distribute over concatenation.
pub proof fn lemma_count_add(a: Seq<EventView>, b: Seq<EventView>, p: spec_fn(EventView) -> bool)
    ensures
        count_matching(a + b, p) == count_matching(a, p) + count_matching(b, p),
    decreases b.len(),
{
    if b.len() == 0 {
        assert(a + b =~= a);
    } else {
        lemma_count_add(a, b.drop_last(), p);
        assert((a + b).drop_last() =~= a + b.drop_last());
        assert((a + b).last() == b.last());
    }
}

/// A count is zero exactly when no event of the log matches.
pub proof fn lemma_count_zero(log: Seq<EventView>, p: spec_fn(EventView) -> bool)
    ensures
        (count_matching(log, p) == 0) <==> (forall|i: int| 0 <= i < log.len() ==> !p(#[trigger] log[i])),
    decreases log.len(),
{
    if log.len() > 0 {
        lemma_count_zero(log.drop_last(), p);
        assert(forall|i: int|
            0 <= i < log.len() - 1 ==> #[trigger] log[i] == log.drop_last()[i]);
        assert(log.last() == log[log.len() - 1]);
    }
}

/// Every span identifier any event of `log` mentions lies below `bound`.
/// This is how a log looks when every identifier in play was minted by the
/// one process-wide counter before being recorded: the counter bounds them
/// all, so an identifier the counter has not yet handed out occurs nowhere.
pub open spec fn log_ids_below(log: Seq<EventView>, bound: nat) -> bool {
    forall|i: int| 0 <= i < log.len() ==> event_ids_below(#[trigger] log[i], bound)
}

/// In a log whose events all mention identifiers below `bound`, a span
/// identifier at or above `bound` occurs nowhere.
pub proof fn lemma_fresh_id_unseen(log: Seq<EventView>, bound: nat, id: nat)
    requires
        log_ids_below(log, bound),
        id >= bound,
    ensures
        count_matching(log, start_of(id)) == 0,
        count_matching(log, end_of(id)) == 0,
        count_matching(log, on_cpu_of(id)) == 0,
        count_matching(log, off_cpu_of(id)) == 0,
{
    lemma_count_zero(log, start_of(id));
    lemma_count_zero(log, end_of(id));
    lemma_count_zero(log, on_cpu_of(id));
    lemma_count_zero(log, off_cpu_of(id));
}

} // verus!
