//! The wakeup relay: event emission, the re-entrancy guard, and the
//! unconditional forwarding into the single-slot waker.

use cyclotron_trace::event::TraceEvent;
use cyclotron_trace::notify::Notifier;
use cyclotron_trace::span::{SpanId, SpanIdGen};
use cyclotron_trace::task::WaitHandle;
use cyclotron_trace::tracer::TracerState;

#[test]
fn notify_emits_wakeup_and_forwards() {
    let mut tracer = TracerState::new();
    let mut spans = SpanIdGen::new();
    let root = spans.fresh();
    tracer.current_span = Some(root);
    let parked = spans.fresh();

    let mut relay = Notifier::new(parked);
    relay.task.park(WaitHandle(5));

    let woken = relay.notify(&mut tracer);
    assert_eq!(woken, Some(WaitHandle(5)));
    assert_eq!(
        tracer.log,
        vec![TraceEvent::Wakeup { waking_span: root, parked_span: parked, ts: 1 }]
    );
    // The guard is left as it was found.
    assert!(!tracer.currently_logging_wakeup);
}

#[test]
fn reentrant_notify_skips_emission_but_still_forwards() {
    let mut tracer = TracerState::new();
    let mut spans = SpanIdGen::new();
    let root = spans.fresh();
    tracer.current_span = Some(root);
    let parked = spans.fresh();

    // The image of an invocation running while an outer one holds the
    // guard: no event may be logged, yet the signal must go through.
    tracer.currently_logging_wakeup = true;

    let mut relay = Notifier::new(parked);
    relay.task.park(WaitHandle(6));
    let woken = relay.notify(&mut tracer);

    assert_eq!(woken, Some(WaitHandle(6)));
    assert!(tracer.log.is_empty());
    assert!(tracer.currently_logging_wakeup);
}

#[test]
fn notify_without_active_span_emits_nothing_but_forwards() {
    let mut tracer = TracerState::new();
    let mut spans = SpanIdGen::new();
    let parked = spans.fresh();

    let mut relay = Notifier::new(parked);
    relay.task.park(WaitHandle(8));
    let woken = relay.notify(&mut tracer);

    assert_eq!(woken, Some(WaitHandle(8)));
    assert!(tracer.log.is_empty());
}

#[test]
fn notify_with_empty_slot_wakes_nobody() {
    let mut tracer = TracerState::new();
    let mut spans = SpanIdGen::new();
    let root = spans.fresh();
    tracer.current_span = Some(root);
    let parked = spans.fresh();

    let mut relay = Notifier::new(parked);
    let woken = relay.notify(&mut tracer);

    // The wakeup is still logged; there was just nobody to wake.
    assert_eq!(woken, None);
    assert_eq!(tracer.log.len(), 1);
}

#[test]
fn notify_logs_wakeup_for_span_minted_on_another_thread() {
    // The relay may be invoked from any thread; the parked span was minted
    // by the process-wide counter on the driver's thread, and the invoking
    // thread's context has never seen it.
    let mut tracer = TracerState::new();
    let mut spans = SpanIdGen::new();
    let root = spans.fresh();
    tracer.current_span = Some(root);

    let foreign = SpanId(1000);
    let mut relay = Notifier::new(foreign);
    relay.task.park(WaitHandle(11));
    let woken = relay.notify(&mut tracer);

    assert_eq!(woken, Some(WaitHandle(11)));
    assert_eq!(
        tracer.log,
        vec![TraceEvent::Wakeup { waking_span: root, parked_span: foreign, ts: 1 }]
    );
}
