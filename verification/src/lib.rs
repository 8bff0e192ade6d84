//! Protocol cores of small thread-synchronisation primitives: a busy-wait
//! lock, an unbounded blocking queue in two wake strategies, and a family of
//! one-shot handoff channels.
//!
//! Every primitive is a plain state machine. An operation that would have to
//! wait is offered twice: under its own name for the states in which it
//! returns, and as a `try_` step that reports that the caller has to wait.
//! Sharing a primitive between threads, waiting and waking are the business of
//! the runtime that hosts it.

pub mod spin_lock;
pub mod channel;
pub mod channels;
