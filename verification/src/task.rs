//! The single-slot waker: a mutually exclusive cell holding at most one wait
//! handle, used to relay a wakeup to whichever driver is currently
//! responsible for a suspended computation.
//!
//! This primitive supports **exactly one** outstanding waiter. Any data
//! structure with multiple concurrent waiters that parks them all into a
//! single `AtomicTask` will deadlock all but the last parker: parking
//! overwrites the recorded handle. This is a deliberate trade-off for a
//! zero-overhead single-consumer relay, not a general-purpose
//! synchronization primitive; do not reuse it for fan-out wakeups.

use vstd::prelude::*;

verus! {

/// Identifies the wait handle of one driving context: two handles with the
/// same identifier wake the same driver. The executor that owns the real
/// handles keeps the mapping from identifier to handle.
#[derive(Clone, Copy, PartialEq, Eq, Structural, Debug)]
pub struct WaitHandle(pub u64);

/// The slot after parking `h`: an already recorded handle that would produce
/// an equivalent wakeup is left untouched, otherwise `h` is recorded.
pub open spec fn park_slot(slot: Option<WaitHandle>, h: WaitHandle) -> Option<WaitHandle> {
    match slot {
        Some(p) => if p.0 == h.0 {
            Some(p)
        } else {
            Some(h)
        },
        None => Some(h),
    }
}

/// The slot after a notify, paired with the handle that is woken: the
/// recorded handle is taken, and the slot is left empty.
pub open spec fn notify_slot(slot: Option<WaitHandle>) -> (Option<WaitHandle>, Option<
    WaitHandle,
>) {
    (None, slot)
}

/// How many handles a run of `n` consecutive notifies wakes, starting from
/// `slot` with no parking in between.
pub open spec fn woken_in_run(slot: Option<WaitHandle>, n: nat) -> nat
    decreases n,
{
    if n == 0 {
        0
    } else {
        (if slot is Some {
            1nat
        } else {
            0nat
        }) + woken_in_run(notify_slot(slot).0, (n - 1) as nat)
    }
}

/// Single-slot cell of at most one parked wait handle.
pub struct AtomicTask {
    pub slot: Option<WaitHandle>,
}

impl AtomicTask {
    /// An empty cell: nobody is parked.
    pub fn new() -> (t: AtomicTask)
        ensures
            t.slot is None,
    {
        AtomicTask { slot: None }
    }

    /// Records `current` as the handle to wake next, unless the recorded
    /// handle already wakes the same driver, in which case it is left
    /// untouched. Idempotent with respect to logical wakeups.
    pub fn park(&mut self, current: WaitHandle)
        ensures
            final(self).slot == park_slot(old(self).slot, current),
    {
        if let Some(p) = &self.slot {
            if p.0 == current.0 {
                return ;
            }
        }
        self.slot = Some(current);
    }

    /// Takes the recorded handle, if any, and hands it out to be woken.
    /// After `notify` the cell is empty, so a second `notify` with no
    /// intervening `park` wakes nobody.
    pub fn notify(&mut self) -> (woken: Option<WaitHandle>)
        ensures
            final(self).slot is None,
            woken == old(self).slot,
            (final(self).slot, woken) == notify_slot(old(self).slot),
    {
        self.slot.take()
    }
}

/// After a `park` followed by a `notify`, the parked handle is woken exactly
/// once: the first notify of the slot wakes it, and every notify after it,
/// with no intervening park, wakes nobody. In particular, a run of notifies
/// racing for the slot wakes the handle exactly once — whichever takes the
/// slot first wins, and the rest find it empty.
pub proof fn lemma_notify_exactly_once(slot: Option<WaitHandle>, h: WaitHandle, n: nat)
    requires
        n >= 1,
    ensures
        notify_slot(park_slot(slot, h)).1 matches Some(w) && w.0 == h.0,
        woken_in_run(park_slot(slot, h), n) == 1,
{
    let parked = park_slot(slot, h);
    assert(parked is Some);
    lemma_woken_in_run_empty((n - 1) as nat);
    assert(woken_in_run(parked, n) == 1 + woken_in_run(None, (n - 1) as nat));
}

/// Parking is idempotent with respect to logical wakeups: parking the same
/// handle again leaves the slot as it was.
pub proof fn lemma_park_idempotent(slot: Option<WaitHandle>, h: WaitHandle)
    ensures
        park_slot(park_slot(slot, h), h) == park_slot(slot, h),
{
}

/// A notify that finds the slot empty is a no-op, however often it is
/// retried.
pub proof fn lemma_woken_in_run_empty(n: nat)
    ensures
        woken_in_run(None, n) == 0,
    decreases n,
{
    if n > 0 {
        lemma_woken_in_run_empty((n - 1) as nat);
    }
}

} // verus!
