//! End-to-end scenarios for the instrumented wrapper: suspension and
//! resumption, failure, and the dropped-computation case.

use cyclotron_trace::event::{AsyncOutcome, TraceEvent};
use cyclotron_trace::span::{SpanId, SpanIdGen};
use cyclotron_trace::task::WaitHandle;
use cyclotron_trace::traced::{FuturePoll, PollFuture, TraceFuture, TraceState};
use cyclotron_trace::tracer::TracerState;

/// Returns not-ready once, then ready with 42.
struct TwoStep {
    polls: u32,
}

impl PollFuture for TwoStep {
    type Item = u64;
    type Error = String;

    fn poll_once(&mut self) -> FuturePoll<u64, String> {
        if self.polls == 0 {
            self.polls = 1;
            FuturePoll::NotReady
        } else {
            FuturePoll::Ready(42)
        }
    }

    fn error_text(e: &String) -> String {
        e.clone()
    }
}

/// Fails on the first poll.
struct RaisesImmediately;

impl PollFuture for RaisesImmediately {
    type Item = u64;
    type Error = String;

    fn poll_once(&mut self) -> FuturePoll<u64, String> {
        FuturePoll::Failed(String::from("boom"))
    }

    fn error_text(e: &String) -> String {
        e.clone()
    }
}

#[test]
fn suspend_then_resume_to_success() {
    let mut tracer = TracerState::new();
    let mut spans = SpanIdGen::new();
    let root = spans.fresh();
    tracer.current_span = Some(root);

    let mut f = TwoStep { polls: 0 }.traced(String::from("two-step"));

    let (r1, relay) = f.poll(&mut tracer, &mut spans, WaitHandle(1));
    assert!(matches!(r1, FuturePoll::NotReady));
    let mut relay = relay.expect("a suspension hands back the relay");

    // First poll: start of the span, one on/off-CPU pair, no terminal
    // event, and the caller's active span restored.
    let id = SpanId(1);
    assert_eq!(
        tracer.log,
        vec![
            TraceEvent::AsyncStart {
                id,
                parent_id: root,
                name: String::from("two-step"),
                metadata: None,
                ts: 1,
            },
            TraceEvent::AsyncOnCPU { id, ts: 2 },
            TraceEvent::AsyncOffCPU { id, ts: 3 },
        ]
    );
    assert_eq!(tracer.current_span, Some(root));

    // An external wakeup: one Wakeup event correlating the waking span with
    // the parked span, and the parked driver handed out to be woken.
    let woken = relay.notify(&mut tracer);
    assert_eq!(woken, Some(WaitHandle(1)));
    assert_eq!(
        tracer.log[3],
        TraceEvent::Wakeup { waking_span: root, parked_span: id, ts: 4 }
    );

    // Second poll: another on/off-CPU pair, then the terminal event.
    let (r2, relay2) = f.poll(&mut tracer, &mut spans, WaitHandle(1));
    assert!(matches!(r2, FuturePoll::Ready(42)));
    assert!(relay2.is_none());
    assert_eq!(
        &tracer.log[4..],
        &[
            TraceEvent::AsyncOnCPU { id, ts: 5 },
            TraceEvent::AsyncOffCPU { id, ts: 6 },
            TraceEvent::AsyncEnd { id, ts: 7, outcome: AsyncOutcome::Success },
        ]
    );
    assert_eq!(tracer.current_span, Some(root));
    assert!(matches!(f.state, TraceState::Resolved));
    assert!(!f.may_poll(&tracer));
}

#[test]
fn failure_on_first_poll_is_recorded_and_reraised() {
    let mut tracer = TracerState::new();
    let mut spans = SpanIdGen::new();
    let root = spans.fresh();
    tracer.current_span = Some(root);

    let mut f = RaisesImmediately.traced(String::from("raises"));
    let (r, relay) = f.poll(&mut tracer, &mut spans, WaitHandle(1));

    match r {
        FuturePoll::Failed(e) => assert_eq!(e, "boom"),
        _ => panic!("the failure must be handed back unchanged"),
    }
    assert!(relay.is_none());

    let id = SpanId(1);
    assert_eq!(
        tracer.log,
        vec![
            TraceEvent::AsyncStart {
                id,
                parent_id: root,
                name: String::from("raises"),
                metadata: None,
                ts: 1,
            },
            TraceEvent::AsyncOnCPU { id, ts: 2 },
            TraceEvent::AsyncOffCPU { id, ts: 3 },
            TraceEvent::AsyncEnd { id, ts: 4, outcome: AsyncOutcome::Error(String::from("boom")) },
        ]
    );

    // No further polls are permitted.
    assert!(matches!(f.state, TraceState::Resolved));
    assert!(!f.may_poll(&tracer));
}

#[test]
fn dropped_computation_leaves_no_terminal_event() {
    let mut tracer = TracerState::new();
    let mut spans = SpanIdGen::new();
    let root = spans.fresh();
    tracer.current_span = Some(root);

    let mut f = TwoStep { polls: 0 }.traced(String::from("dropped"));
    let (r, _relay) = f.poll(&mut tracer, &mut spans, WaitHandle(1));
    assert!(matches!(r, FuturePoll::NotReady));
    drop(f);

    let starts = tracer
        .log
        .iter()
        .filter(|e| matches!(e, TraceEvent::AsyncStart { .. }))
        .count();
    let ends = tracer
        .log
        .iter()
        .filter(|e| matches!(e, TraceEvent::AsyncEnd { .. }))
        .count();
    assert_eq!(starts, 1);
    assert_eq!(ends, 0);
}

#[test]
fn nested_span_records_its_parent() {
    let mut tracer = TracerState::new();
    let mut spans = SpanIdGen::new();
    let root = spans.fresh();
    tracer.current_span = Some(root);

    // Pretend the thread is currently inside some deeper span: the parent
    // recorded at the first poll is whatever the thread observes then.
    let inner_span = spans.fresh();
    tracer.current_span = Some(inner_span);

    let mut f = TwoStep { polls: 1 }.traced(String::from("nested"));
    let (r, _) = f.poll(&mut tracer, &mut spans, WaitHandle(2));
    assert!(matches!(r, FuturePoll::Ready(42)));

    match &tracer.log[0] {
        TraceEvent::AsyncStart { parent_id, .. } => assert_eq!(*parent_id, inner_span),
        other => panic!("expected AsyncStart first, got {:?}", other),
    }
    assert_eq!(tracer.current_span, Some(inner_span));
}

#[test]
fn polling_resumed_future_emits_no_second_start() {
    let mut tracer = TracerState::new();
    let mut spans = SpanIdGen::new();
    let root = spans.fresh();
    tracer.current_span = Some(root);

    let mut f = TwoStep { polls: 0 }.traced(String::from("counted"));
    let _ = f.poll(&mut tracer, &mut spans, WaitHandle(1));
    let _ = f.poll(&mut tracer, &mut spans, WaitHandle(1));

    let starts = tracer
        .log
        .iter()
        .filter(|e| matches!(e, TraceEvent::AsyncStart { .. }))
        .count();
    let on_cpus = tracer
        .log
        .iter()
        .filter(|e| matches!(e, TraceEvent::AsyncOnCPU { .. }))
        .count();
    let off_cpus = tracer
        .log
        .iter()
        .filter(|e| matches!(e, TraceEvent::AsyncOffCPU { .. }))
        .count();
    assert_eq!(starts, 1);
    // One on/off pair per poll call.
    assert_eq!(on_cpus, 2);
    assert_eq!(off_cpus, 2);
}

#[test]
fn wrapping_and_unwrapping_is_transparent() {
    let f = TwoStep { polls: 0 }.traced(String::from("transparent"));
    assert!(matches!(&f.state, TraceState::Created { name } if name == "transparent"));
    let inner = f.into_inner();
    assert_eq!(inner.polls, 0);
}
