//! Instrumentation engine for tracing asynchronous computations.
//!
//! Every suspension, resumption and cross-thread wakeup of a wrapped
//! computation is recorded as a timestamped, causally linked event, without
//! altering the computation's result. The engine is explicit-state: the
//! per-thread trace context is passed through the poll interface as a value,
//! and the wait handles that an executor would manage ambiently are plain
//! identifiers, so that the whole state machine is open to verification.

pub mod event;
pub mod notify;
pub mod span;
pub mod task;
pub mod traced;
pub mod tracer;
