//! The unbounded channel: a block queue, one notifier, and a closed flag.
//!
//! The producer never blocks on capacity, so there is no producer-side
//! notifier: only the consumer ever suspends. Sends push into the block queue
//! and wake the consumer's notifier (or defer the wake until `flush`, for
//! batches). The consumer mirrors the bounded channel's `try_recv`,
//! `poll_want_recv` and `poll_recv`, with the same double-check discipline
//! after registering a continuation.

use crate::error::{SendError, TryRecvError, TrySendError};
use crate::notifier::{lemma_waiting_state, Notifier, WAITING};
use crate::poll::Poll;
use crate::queue::Queue;
use vstd::prelude::*;

verus! {

/// An unbounded SPSC channel: both endpoints' operations on one shared core.
pub struct UnboundedChannel<T> {
    queue: Queue<T>,
    consumer: Notifier,
    closed: bool,
}

/// A fresh unbounded channel.
pub fn unbounded_channel<T>() -> (c: UnboundedChannel<T>)
    ensures
        c.wf(),
        c.queue() == Seq::<T>::empty(),
        !c.closed_spec(),
        c.sent() == 0,
        c.consumer_waiter() is None,
{
    UnboundedChannel { queue: Queue::new(), consumer: Notifier::new(), closed: false }
}

impl<T> UnboundedChannel<T> {
    /// The undelivered items, oldest first.
    pub closed spec fn queue(&self) -> Seq<T> {
        self.queue@
    }

    /// Whether either endpoint has closed the channel.
    pub closed spec fn closed_spec(&self) -> bool {
        self.closed
    }

    /// How many items were ever pushed (the producer position).
    pub closed spec fn sent(&self) -> int {
        self.queue.prod()
    }

    /// The continuation registered for the consumer task, if any.
    pub closed spec fn consumer_waiter(&self) -> Option<u64> {
        self.consumer@.waker
    }

    /// Well-formed: the queue is, and the notifier is settled.
    pub closed spec fn wf(&self) -> bool {
        &&& self.queue.wf()
        &&& self.consumer@.state == WAITING
    }

    /// Pushes `item` without waking the consumer, for batched sends that
    /// `flush` later; refused once the channel is closed.
    pub fn start_send(&mut self, item: T) -> (r: Result<(), SendError>)
        requires
            old(self).wf(),
            old(self).sent() < usize::MAX,
        ensures
            final(self).wf(),
            final(self).closed_spec() == old(self).closed_spec(),
            final(self).consumer_waiter() == old(self).consumer_waiter(),
            old(self).closed_spec() ==> {
                &&& r == Err::<(), SendError>(SendError::Disconnected)
                &&& final(self).queue() == old(self).queue()
                &&& final(self).sent() == old(self).sent()
            },
            !old(self).closed_spec() ==> {
                &&& r == Ok::<(), SendError>(())
                &&& final(self).queue() == old(self).queue().push(item)
                &&& final(self).sent() == old(self).sent() + 1
            },
    {
        if self.is_closed() {
            Err(SendError::Disconnected)
        } else {
            self.queue.push(item);
            Ok(())
        }
    }

    /// Pushes `item` and wakes the consumer; hands the item back when the
    /// peer is gone. An unbounded send never suspends.
    pub fn send(&mut self, item: T) -> (r: (Result<(), TrySendError<T>>, Option<u64>))
        requires
            old(self).wf(),
            old(self).sent() < usize::MAX,
        ensures
            final(self).wf(),
            final(self).closed_spec() == old(self).closed_spec(),
            final(self).consumer_waiter() == old(self).consumer_waiter(),
            old(self).closed_spec() ==> {
                &&& (r.0 matches Err(e) && e.kind() is Disconnected && e.value() == item)
                &&& r.1 == None::<u64>
                &&& final(self).queue() == old(self).queue()
                &&& final(self).sent() == old(self).sent()
            },
            !old(self).closed_spec() ==> {
                &&& r.0 == Ok::<(), TrySendError<T>>(())
                &&& r.1 == old(self).consumer_waiter()
                &&& final(self).queue() == old(self).queue().push(item)
                &&& final(self).sent() == old(self).sent() + 1
            },
    {
        proof {
            lemma_waiting_state();
        }
        if self.is_closed() {
            (Err(TrySendError::disconnected(item)), None)
        } else {
            self.queue.push(item);
            let woken = self.consumer.wake_by_ref();
            (Ok(()), woken)
        }
    }

    /// Issues the wake a batch of `start_send`s deferred; skips it when the
    /// queue is already drained.
    pub fn flush(&mut self) -> (r: (Result<(), SendError>, Option<u64>))
        requires
            old(self).wf(),
        ensures
            final(self).wf(),
            final(self).queue() == old(self).queue(),
            final(self).sent() == old(self).sent(),
            final(self).closed_spec() == old(self).closed_spec(),
            final(self).consumer_waiter() == old(self).consumer_waiter(),
            old(self).closed_spec() ==> r == (
                Err::<(), SendError>(SendError::Disconnected),
                None::<u64>,
            ),
            !old(self).closed_spec() && old(self).queue().len() == 0 ==> r == (
                Ok::<(), SendError>(()),
                None::<u64>,
            ),
            !old(self).closed_spec() && old(self).queue().len() > 0 ==> r == (
                Ok::<(), SendError>(()),
                old(self).consumer_waiter(),
            ),
    {
        proof {
            lemma_waiting_state();
        }
        if self.is_closed() {
            (Err(SendError::Disconnected), None)
        } else if self.queue.is_empty() {
            // The queue is already drained: skip the wake.
            (Ok(()), None)
        } else {
            let woken = self.consumer.wake_by_ref();
            (Ok(()), woken)
        }
    }

    /// Takes the oldest undelivered item. When the queue looks empty and the
    /// channel is closed, it drains once more before reporting
    /// `Disconnected`: the producer may have pushed an item and closed
    /// between the two checks.
    pub fn try_recv(&mut self) -> (r: Result<T, TryRecvError>)
        requires
            old(self).wf(),
        ensures
            final(self).wf(),
            final(self).sent() == old(self).sent(),
            final(self).closed_spec() == old(self).closed_spec(),
            final(self).consumer_waiter() == old(self).consumer_waiter(),
            old(self).queue().len() > 0 ==> {
                &&& r == Ok::<T, TryRecvError>(old(self).queue().first())
                &&& final(self).queue() == old(self).queue().drop_first()
            },
            old(self).queue().len() == 0 && old(self).closed_spec() ==> {
                &&& r == Err::<T, TryRecvError>(TryRecvError::Disconnected)
                &&& final(self).queue() == old(self).queue()
            },
            old(self).queue().len() == 0 && !old(self).closed_spec() ==> {
                &&& r == Err::<T, TryRecvError>(TryRecvError::Empty)
                &&& final(self).queue() == old(self).queue()
            },
    {
        match self.queue.try_pop() {
            Some(item) => Ok(item),
            None => {
                if self.is_closed() {
                    // Drain the race where the producer pushed an item and
                    // then closed: pop once more before giving up.
                    match self.queue.try_pop() {
                        Some(item) => Ok(item),
                        None => Err(TryRecvError::Disconnected),
                    }
                } else {
                    Err(TryRecvError::Empty)
                }
            },
        }
    }

    /// One step of `want_recv`, for batch consumers that only want to hear
    /// "something is there now": register on the notifier and suspend only
    /// while the queue is empty. The producer never blocks, so there is no
    /// peer to wake.
    pub fn poll_want_recv(&mut self, w: u64) -> (r: Poll<()>)
        requires
            old(self).wf(),
        ensures
            final(self).wf(),
            final(self).queue() == old(self).queue(),
            final(self).sent() == old(self).sent(),
            final(self).closed_spec() == old(self).closed_spec(),
            old(self).closed_spec() ==> {
                &&& r == Poll::Ready(())
                &&& final(self).consumer_waiter() == old(self).consumer_waiter()
            },
            !old(self).closed_spec() ==> {
                &&& final(self).consumer_waiter() == Some(w)
                &&& (old(self).queue().len() == 0 ==> r == Poll::<()>::Pending)
                &&& (old(self).queue().len() > 0 ==> r == Poll::Ready(()))
            },
    {
        proof {
            lemma_waiting_state();
        }
        if self.is_closed() {
            return Poll::Ready(());
        }
        let _ = self.consumer.register(w);
        if self.queue.is_empty() {
            Poll::Pending
        } else {
            Poll::Ready(())
        }
    }

    /// One step of `recv`: take the oldest item; on an empty queue register
    /// on the notifier, then re-examine — if the channel closed, drain once
    /// more and report `None` only when truly empty (the double-check that
    /// keeps the last item from being lost).
    pub fn poll_recv(&mut self, w: u64) -> (r: Poll<Option<T>>)
        requires
            old(self).wf(),
        ensures
            final(self).wf(),
            final(self).sent() == old(self).sent(),
            final(self).closed_spec() == old(self).closed_spec(),
            old(self).queue().len() > 0 ==> {
                &&& r == Poll::Ready(Some(old(self).queue().first()))
                &&& final(self).queue() == old(self).queue().drop_first()
                &&& final(self).consumer_waiter() == old(self).consumer_waiter()
            },
            old(self).queue().len() == 0 && old(self).closed_spec() ==> {
                &&& r == Poll::Ready(None::<T>)
                &&& final(self).queue() == old(self).queue()
                &&& final(self).consumer_waiter() == Some(w)
            },
            old(self).queue().len() == 0 && !old(self).closed_spec() ==> {
                &&& r == Poll::<Option<T>>::Pending
                &&& final(self).queue() == old(self).queue()
                &&& final(self).consumer_waiter() == Some(w)
            },
    {
        proof {
            lemma_waiting_state();
        }
        if let Some(item) = self.queue.try_pop() {
            return Poll::Ready(Some(item));
        }
        let _ = self.consumer.register(w);
        // Double-check: an item may have been pushed, or the channel closed,
        // between the pop above and the registration.
        if self.is_closed() {
            Poll::Ready(self.queue.try_pop())
        } else {
            match self.queue.try_pop() {
                None => Poll::Pending,
                Some(item) => Poll::Ready(Some(item)),
            }
        }
    }

    /// Whether either endpoint has closed the channel.
    pub fn is_closed(&self) -> (r: bool)
        ensures
            r == self.closed_spec(),
    {
        self.closed
    }

    /// The producer endpoint's close (and its drop): refuse further sends and
    /// wake the consumer, so a suspended `recv` drains and sees `None`.
    pub fn close_producer(&mut self) -> (woken: Option<u64>)
        requires
            old(self).wf(),
        ensures
            final(self).wf(),
            final(self).queue() == old(self).queue(),
            final(self).sent() == old(self).sent(),
            final(self).closed_spec(),
            final(self).consumer_waiter() == old(self).consumer_waiter(),
            woken == old(self).consumer_waiter(),
    {
        proof {
            lemma_waiting_state();
        }
        self.closed = true;
        self.consumer.wake_by_ref()
    }

    /// The consumer endpoint's close (and its drop): refuse further sends.
    /// The producer never suspends on an unbounded channel, so there is no
    /// notifier to wake; the consumer may still drain buffered items.
    pub fn close_consumer(&mut self)
        requires
            old(self).wf(),
        ensures
            final(self).wf(),
            final(self).queue() == old(self).queue(),
            final(self).sent() == old(self).sent(),
            final(self).closed_spec(),
            final(self).consumer_waiter() == old(self).consumer_waiter(),
    {
        self.closed = true;
    }
}

} // verus!
