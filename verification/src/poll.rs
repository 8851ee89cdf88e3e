//! Step results of the suspending operations.
//!
//! A suspending operation is a state-machine step: it either completes with a
//! value, or reports that it is suspended after registering a continuation
//! handle. The driver re-invokes a suspended step once that handle is resumed.

use vstd::prelude::*;

verus! {

/// One step of a suspending operation: complete, or suspended until a wake.
#[derive(Clone, Copy, Debug, PartialEq, Eq)]
pub enum Poll<T> {
    /// The operation completed with this value.
    Ready(T),
    /// The operation suspended; a continuation is registered.
    Pending,
}

/// One step of a bounded send, which must hand the message back until it is
/// staged.
#[derive(Clone, Copy, Debug, PartialEq, Eq)]
pub enum SendStep<T> {
    /// The message was staged and the consumer's notifier woken.
    Sent,
    /// The peer is gone; the message comes back to the caller.
    Disconnected(T),
    /// The ring was full; the message comes back for the retry after the wake.
    Pending(T),
}

} // verus!
