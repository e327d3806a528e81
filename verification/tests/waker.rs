//! The single-slot waker: parking and the exactly-once wakeup hand-off.

use cyclotron_trace::task::{AtomicTask, WaitHandle};

#[test]
fn new_cell_is_empty() {
    let mut cell = AtomicTask::new();
    assert_eq!(cell.notify(), None);
}

#[test]
fn park_then_notify_wakes_exactly_once() {
    let mut cell = AtomicTask::new();
    cell.park(WaitHandle(7));
    assert_eq!(cell.notify(), Some(WaitHandle(7)));
    // A second notify with no intervening park is a no-op.
    assert_eq!(cell.notify(), None);
    assert_eq!(cell.notify(), None);
}

#[test]
fn repeated_park_of_same_handle_is_idempotent() {
    let mut cell = AtomicTask::new();
    cell.park(WaitHandle(3));
    cell.park(WaitHandle(3));
    cell.park(WaitHandle(3));
    assert_eq!(cell.notify(), Some(WaitHandle(3)));
    assert_eq!(cell.notify(), None);
}

#[test]
fn last_parker_wins_the_slot() {
    // The documented single-waiter limitation: parking a second, different
    // handle overwrites the first, which will never be woken.
    let mut cell = AtomicTask::new();
    cell.park(WaitHandle(1));
    cell.park(WaitHandle(2));
    assert_eq!(cell.notify(), Some(WaitHandle(2)));
    assert_eq!(cell.notify(), None);
}

#[test]
fn run_of_notifies_after_one_park_wakes_once() {
    // Sequentialized image of racing notifies: however many times the slot
    // is drained, one park yields exactly one wakeup.
    let mut cell = AtomicTask::new();
    cell.park(WaitHandle(9));
    let mut woken: u32 = 0;
    for _ in 0..5 {
        if cell.notify().is_some() {
            woken += 1;
        }
    }
    assert_eq!(woken, 1);
}
