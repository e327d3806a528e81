//! Span identity: opaque identifiers for one instrumented span of execution,
//! and the strictly increasing counter that mints them.

use vstd::prelude::*;

verus! {

/// Identifier of one instrumented span of execution. Created once, at the
/// first poll of an instrumented computation; never reused; never mutated.
#[derive(Clone, Copy, PartialEq, Eq, Structural, Debug, Hash)]
pub struct SpanId(pub u64);

impl View for SpanId {
    type V = nat;

    open spec fn view(&self) -> nat {
        self.0 as nat
    }
}

/// Mints `SpanId` values from a monotonically increasing counter, so that a
/// fresh identifier is strictly greater than every identifier handed out
/// before it. A process holds exactly one of these, shared by every thread
/// that instruments work (the embedding serializes access to it), so that
/// identifiers are unique across the whole process and a trace merged from
/// many threads stays unambiguous.
#[derive(Clone, Copy, PartialEq, Eq, Structural, Debug)]
pub struct SpanIdGen {
    pub next: u64,
}

impl SpanIdGen {
    pub fn new() -> (g: SpanIdGen)
        ensures
            g.next == 0,
    {
        SpanIdGen { next: 0 }
    }

    /// Hands out the next identifier; every later call returns a strictly
    /// greater one.
    pub fn fresh(&mut self) -> (s: SpanId)
        requires
            old(self).next < u64::MAX,
        ensures
            s@ == old(self).next as nat,
            final(self).next == old(self).next + 1,
    {
        let s = SpanId(self.next);
        self.next = self.next + 1;
        s
    }
}

} // verus!
