//! Error values returned by the channel endpoints.
//!
//! Errors are returned by value and carry no payload beyond their
//! discriminant, except for [`TrySendError`], which hands the rejected
//! message back to the caller for retry.

use vstd::prelude::*;

verus! {

/// Why a send did not complete.
#[derive(Clone, Debug, PartialEq, Eq, Structural)]
pub enum SendError {
    /// The bounded channel has no free slot at this moment (transient).
    Full,
    /// The peer consumer is gone, or the channel was explicitly closed (terminal).
    Disconnected,
}

impl SendError {
    /// True exactly on the `Full` variant.
    pub fn is_full(&self) -> (r: bool)
        ensures
            r == (self is Full),
    {
        matches!(self, SendError::Full)
    }

    /// True exactly on the `Disconnected` variant.
    pub fn is_disconnected(&self) -> (r: bool)
        ensures
            r == (self is Disconnected),
    {
        matches!(self, SendError::Disconnected)
    }
}

/// A failed send together with the message it rejected, so the caller can retry.
#[derive(Clone, Debug, PartialEq, Eq)]
pub struct TrySendError<T> {
    pub(crate) err: SendError,
    pub(crate) val: T,
}

impl<T> TrySendError<T> {
    /// The reason the send failed.
    pub closed spec fn kind(&self) -> SendError {
        self.err
    }

    /// The rejected message.
    pub closed spec fn value(&self) -> T {
        self.val
    }

    /// A `Disconnected` carrier holding the rejected `item`.
    pub fn disconnected(item: T) -> (e: Self)
        ensures
            e.kind() is Disconnected,
            e.value() == item,
    {
        TrySendError { err: SendError::Disconnected, val: item }
    }

    /// True exactly when the channel was full.
    pub fn is_full(&self) -> (r: bool)
        ensures
            r == (self.kind() is Full),
    {
        self.err.is_full()
    }

    /// True exactly when the peer was gone.
    pub fn is_disconnected(&self) -> (r: bool)
        ensures
            r == (self.kind() is Disconnected),
    {
        self.err.is_disconnected()
    }

    /// Returns the rejected message.
    pub fn into_inner(self) -> (r: T)
        ensures
            r == self.value(),
    {
        self.val
    }

    /// Drops the message and keeps the reason.
    pub fn into_send_error(self) -> (r: SendError)
        ensures
            r == self.kind(),
    {
        self.err
    }
}

/// Why a `try_recv` returned no item.
#[derive(Clone, Debug, PartialEq, Eq, Structural)]
pub enum TryRecvError {
    /// No item right now; the producer may still send more (transient).
    Empty,
    /// No item, and the peer producer is gone (terminal).
    Disconnected,
}

} // verus!
