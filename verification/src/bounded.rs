//! The bounded channel: a ring, two notifiers, and a closed flag.
//!
//! The producer side stages items into the ring and wakes the consumer's
//! notifier; the consumer side drains the ring and wakes the producer's
//! notifier. `closed` is set by either side's close (or drop) and never
//! cleared. Every operation that suspends registers its continuation handle
//! first and then re-examines the ring before reporting `Pending`: the
//! double-check that closes the window against a peer that made progress
//! between the first check and the registration.
//!
//! Operations return the continuation handle the scheduler must resume next
//! to (`None` when no wake is owed); the driver that owns the channel resumes
//! it and re-polls the suspended side.

use crate::error::{SendError, TryRecvError};
use crate::notifier::{lemma_waiting_state, Notifier, WAITING};
use crate::poll::{Poll, SendStep};
use crate::ring::{And, Indexer, Remainder, Ring};
use vstd::prelude::*;

verus! {

use vstd::arithmetic::power2::pow2;
use vstd::math::max;

/// A bounded SPSC channel: both endpoints' operations on one shared core.
pub struct Channel<T, I: Indexer> {
    ring: Ring<T, I>,
    consumer: Notifier,
    producer: Notifier,
    closed: bool,
}

/// The bounded channel with power-of-two capacity, indexed by bitmask.
pub type P2Channel<T> = Channel<T, And>;

/// The bounded channel with exact capacity, indexed by remainder.
pub type ExactChannel<T> = Channel<T, Remainder>;

/// A bounded channel of `max(size + 1, 2)` ring slots rounded up to the next
/// power of two; one slot stays reserved, so `slots()` of them are usable.
pub fn channel<T>(size: usize) -> (c: P2Channel<T>)
    requires
        size + 1 <= usize::MAX / 2 + 1,
    ensures
        c.wf(),
        c.queue() == Seq::<T>::empty(),
        !c.closed_spec(),
        c.sent() == 0,
        c.consumer_waiter() is None,
        c.producer_waiter() is None,
        exists|n: nat| c.slots() + 1 == pow2(n),
        max(size + 1, 2) - 1 <= c.slots() < 2 * max(size + 1, 2) - 1,
{
    Channel {
        ring: Ring::<T, And>::with_capacity(size),
        consumer: Notifier::new(),
        producer: Notifier::new(),
        closed: false,
    }
}

/// A bounded channel of exactly `max(size + 1, 2)` ring slots; one slot stays
/// reserved, so the observed depth equals the requested size.
pub fn exact_channel<T>(size: usize) -> (c: ExactChannel<T>)
    requires
        size < usize::MAX,
    ensures
        c.wf(),
        c.queue() == Seq::<T>::empty(),
        !c.closed_spec(),
        c.sent() == 0,
        c.consumer_waiter() is None,
        c.producer_waiter() is None,
        c.slots() == max(size + 1, 2) - 1,
{
    Channel {
        ring: Ring::<T, Remainder>::with_capacity(size),
        consumer: Notifier::new(),
        producer: Notifier::new(),
        closed: false,
    }
}

impl<T, I: Indexer> Channel<T, I> {
    /// The undelivered items, oldest first.
    pub closed spec fn queue(&self) -> Seq<T> {
        self.ring@
    }

    /// Whether either endpoint has closed the channel.
    pub closed spec fn closed_spec(&self) -> bool {
        self.closed
    }

    /// The usable slot count: the ring's capacity less the reserved slot.
    pub closed spec fn slots(&self) -> int {
        self.ring.cap_spec() - 1
    }

    /// How many items were ever staged (the producer position).
    pub closed spec fn sent(&self) -> int {
        self.ring.prod()
    }

    /// The continuation registered for the consumer task, if any.
    pub closed spec fn consumer_waiter(&self) -> Option<u64> {
        self.consumer@.waker
    }

    /// The continuation registered for the producer task, if any.
    pub closed spec fn producer_waiter(&self) -> Option<u64> {
        self.producer@.waker
    }

    /// Well-formed: the ring is, and both notifiers are settled (an operation
    /// holds a protocol bit only while it runs).
    pub closed spec fn wf(&self) -> bool {
        &&& self.ring.wf()
        &&& self.consumer@.state == WAITING
        &&& self.producer@.state == WAITING
    }

    /// Bounded capacity: a well-formed channel never holds more undelivered
    /// items than its slot count. `start_send`'s contract states the
    /// companion fact: it reports `Full` exactly when this count is reached.
    pub proof fn lemma_bounded_capacity(&self)
        requires
            self.wf(),
        ensures
            self.queue().len() <= self.slots(),
            self.slots() >= 1,
    {
        self.ring.lemma_wf_properties();
    }

    /// Stages `item` without waking the consumer, for batched sends that
    /// `flush` later; reports `Full` when only the reserved slot is free.
    pub fn start_send(&mut self, item: T) -> (r: Result<(), SendError>)
        requires
            old(self).wf(),
            old(self).sent() < usize::MAX,
        ensures
            final(self).wf(),
            final(self).closed_spec() == old(self).closed_spec(),
            final(self).slots() == old(self).slots(),
            final(self).consumer_waiter() == old(self).consumer_waiter(),
            final(self).producer_waiter() == old(self).producer_waiter(),
            old(self).queue().len() < old(self).slots() ==> {
                &&& r == Ok::<(), SendError>(())
                &&& final(self).queue() == old(self).queue().push(item)
                &&& final(self).sent() == old(self).sent() + 1
            },
            old(self).queue().len() == old(self).slots() ==> {
                &&& r == Err::<(), SendError>(SendError::Full)
                &&& final(self).queue() == old(self).queue()
                &&& final(self).sent() == old(self).sent()
            },
    {
        proof {
            self.ring.lemma_wf_properties();
        }
        if let Some(idx) = self.ring.next_idx() {
            self.ring.set(item, idx);
            Ok(())
        } else {
            Err(SendError::Full)
        }
    }

    /// One step of `flush`: `Disconnected` when closed, complete at once when
    /// the ring is already drained, else register on the producer notifier,
    /// wake the consumer, and suspend until the ring drains or the channel
    /// closes.
    pub fn poll_flush(&mut self, w: u64) -> (r: (Poll<Result<(), SendError>>, Option<u64>))
        requires
            old(self).wf(),
        ensures
            final(self).wf(),
            final(self).queue() == old(self).queue(),
            final(self).sent() == old(self).sent(),
            final(self).slots() == old(self).slots(),
            final(self).closed_spec() == old(self).closed_spec(),
            final(self).consumer_waiter() == old(self).consumer_waiter(),
            old(self).closed_spec() ==> {
                &&& r == (Poll::Ready(Err::<(), SendError>(SendError::Disconnected)), None::<u64>)
                &&& final(self).producer_waiter() == old(self).producer_waiter()
            },
            !old(self).closed_spec() && old(self).queue().len() == 0 ==> {
                &&& r == (Poll::Ready(Ok::<(), SendError>(())), None::<u64>)
                &&& final(self).producer_waiter() == old(self).producer_waiter()
            },
            !old(self).closed_spec() && old(self).queue().len() > 0 ==> {
                &&& r.0 == Poll::<Result<(), SendError>>::Pending
                &&& r.1 == old(self).consumer_waiter()
                &&& final(self).producer_waiter() == Some(w)
            },
    {
        proof {
            lemma_waiting_state();
        }
        if self.is_closed() {
            (Poll::Ready(Err(SendError::Disconnected)), None)
        } else if self.ring.is_empty() {
            // The ring is already drained: complete without touching either
            // notifier.
            (Poll::Ready(Ok(())), None)
        } else {
            let _ = self.producer.register(w);
            let woken = self.consumer.wake_by_ref();
            (Poll::Pending, woken)
        }
    }

    /// One step of waiting for a free slot: completes at once unless the ring
    /// is full, in which case it behaves as one step of `flush`.
    pub fn poll_ready(&mut self, w: u64) -> (r: (Poll<Result<(), SendError>>, Option<u64>))
        requires
            old(self).wf(),
        ensures
            final(self).wf(),
            final(self).queue() == old(self).queue(),
            final(self).sent() == old(self).sent(),
            final(self).slots() == old(self).slots(),
            final(self).closed_spec() == old(self).closed_spec(),
            final(self).consumer_waiter() == old(self).consumer_waiter(),
            old(self).queue().len() < old(self).slots() ==> {
                &&& r == (Poll::Ready(Ok::<(), SendError>(())), None::<u64>)
                &&& final(self).producer_waiter() == old(self).producer_waiter()
            },
            old(self).queue().len() == old(self).slots() && old(self).closed_spec() ==> {
                &&& r == (Poll::Ready(Err::<(), SendError>(SendError::Disconnected)), None::<u64>)
                &&& final(self).producer_waiter() == old(self).producer_waiter()
            },
            old(self).queue().len() == old(self).slots() && !old(self).closed_spec() ==> {
                &&& r.0 == Poll::<Result<(), SendError>>::Pending
                &&& r.1 == old(self).consumer_waiter()
                &&& final(self).producer_waiter() == Some(w)
            },
    {
        if self.ring.is_full() {
            proof {
                self.lemma_bounded_capacity();
            }
            self.poll_flush(w)
        } else {
            (Poll::Ready(Ok(())), None)
        }
    }

    /// One step of waiting for the slot index of the next send: `Ready` with
    /// the reserved index, or `Pending` after registering on the producer
    /// notifier and re-checking the ring (the double-check).
    fn poll_next_pos(&mut self, w: u64) -> (r: Poll<Result<usize, SendError>>)
        requires
            old(self).wf(),
        ensures
            final(self).wf(),
            final(self).queue() == old(self).queue(),
            final(self).sent() == old(self).sent(),
            final(self).slots() == old(self).slots(),
            final(self).closed_spec() == old(self).closed_spec(),
            final(self).consumer_waiter() == old(self).consumer_waiter(),
            final(self).ring == old(self).ring,
            old(self).closed_spec() ==> {
                &&& r == Poll::Ready(Err::<usize, SendError>(SendError::Disconnected))
                &&& final(self).producer_waiter() == old(self).producer_waiter()
            },
            !old(self).closed_spec() && old(self).queue().len() < old(self).slots() ==> {
                &&& (r matches Poll::Ready(res) && res matches Ok(idx) && idx == old(
                    self,
                ).ring.prod() % old(self).ring.cap_spec())
                &&& final(self).producer_waiter() == old(self).producer_waiter()
            },
            !old(self).closed_spec() && old(self).queue().len() == old(self).slots() ==> {
                &&& r == Poll::<Result<usize, SendError>>::Pending
                &&& final(self).producer_waiter() == Some(w)
            },
    {
        proof {
            lemma_waiting_state();
            self.ring.lemma_wf_properties();
        }
        if self.is_closed() {
            return Poll::Ready(Err(SendError::Disconnected));
        }
        if let Some(idx) = self.ring.next_idx() {
            Poll::Ready(Ok(idx))
        } else {
            let _ = self.producer.register(w);
            // Double-check: the consumer may have taken items between the
            // check above and the registration.
            if let Some(idx) = self.ring.next_idx() {
                Poll::Ready(Ok(idx))
            } else {
                Poll::Pending
            }
        }
    }

    /// One step of `send`: stage `item` and wake the consumer, report
    /// `Disconnected` with the item when the peer is gone, or hand the item
    /// back `Pending` after registering on the producer notifier.
    pub fn poll_send(&mut self, item: T, w: u64) -> (r: (SendStep<T>, Option<u64>))
        requires
            old(self).wf(),
            old(self).sent() < usize::MAX,
        ensures
            final(self).wf(),
            final(self).slots() == old(self).slots(),
            final(self).closed_spec() == old(self).closed_spec(),
            final(self).consumer_waiter() == old(self).consumer_waiter(),
            old(self).closed_spec() ==> {
                &&& r == (SendStep::Disconnected(item), None::<u64>)
                &&& final(self).queue() == old(self).queue()
                &&& final(self).sent() == old(self).sent()
                &&& final(self).producer_waiter() == old(self).producer_waiter()
            },
            !old(self).closed_spec() && old(self).queue().len() < old(self).slots() ==> {
                &&& r.0 == SendStep::<T>::Sent
                &&& r.1 == old(self).consumer_waiter()
                &&& final(self).queue() == old(self).queue().push(item)
                &&& final(self).sent() == old(self).sent() + 1
                &&& final(self).producer_waiter() == old(self).producer_waiter()
            },
            !old(self).closed_spec() && old(self).queue().len() == old(self).slots() ==> {
                &&& r == (SendStep::Pending(item), None::<u64>)
                &&& final(self).queue() == old(self).queue()
                &&& final(self).sent() == old(self).sent()
                &&& final(self).producer_waiter() == Some(w)
            },
    {
        proof {
            lemma_waiting_state();
            self.ring.lemma_wf_properties();
        }
        match self.poll_next_pos(w) {
            Poll::Ready(Ok(idx)) => {
                self.ring.set(item, idx);
                let woken = self.consumer.wake_by_ref();
                (SendStep::Sent, woken)
            },
            Poll::Ready(Err(_)) => (SendStep::Disconnected(item), None),
            Poll::Pending => (SendStep::Pending(item), None),
        }
    }

    /// Takes the oldest undelivered item without waking the producer. When
    /// the ring looks empty and the channel is closed, it drains once more
    /// before reporting `Disconnected`: the producer may have staged an item
    /// and closed between the two checks.
    pub fn try_recv(&mut self) -> (r: Result<T, TryRecvError>)
        requires
            old(self).wf(),
        ensures
            final(self).wf(),
            final(self).sent() == old(self).sent(),
            final(self).slots() == old(self).slots(),
            final(self).closed_spec() == old(self).closed_spec(),
            final(self).consumer_waiter() == old(self).consumer_waiter(),
            final(self).producer_waiter() == old(self).producer_waiter(),
            old(self).queue().len() > 0 ==> {
                &&& r == Ok::<T, TryRecvError>(old(self).queue().first())
                &&& final(self).queue() == old(self).queue().drop_first()
            },
            old(self).queue().len() == 0 && old(self).closed_spec() ==> {
                &&& r == Err::<T, TryRecvError>(TryRecvError::Disconnected)
                &&& final(self).queue() == old(self).queue()
            },
            old(self).queue().len() == 0 && !old(self).closed_spec() ==> {
                &&& r == Err::<T, TryRecvError>(TryRecvError::Empty)
                &&& final(self).queue() == old(self).queue()
            },
    {
        match self.ring.try_pop() {
            Some(item) => Ok(item),
            None => {
                if self.is_closed() {
                    // Drain the race where the producer staged an item and
                    // then closed: pop once more before giving up.
                    match self.ring.try_pop() {
                        Some(item) => Ok(item),
                        None => Err(TryRecvError::Disconnected),
                    }
                } else {
                    Err(TryRecvError::Empty)
                }
            },
        }
    }

    /// Takes the oldest item and wakes the producer, or reports `Pending`.
    fn poll_next_msg(&mut self) -> (r: (Poll<T>, Option<u64>))
        requires
            old(self).wf(),
        ensures
            final(self).wf(),
            final(self).sent() == old(self).sent(),
            final(self).slots() == old(self).slots(),
            final(self).closed_spec() == old(self).closed_spec(),
            final(self).consumer_waiter() == old(self).consumer_waiter(),
            final(self).producer_waiter() == old(self).producer_waiter(),
            old(self).queue().len() > 0 ==> {
                &&& r.0 == Poll::Ready(old(self).queue().first())
                &&& r.1 == old(self).producer_waiter()
                &&& final(self).queue() == old(self).queue().drop_first()
            },
            old(self).queue().len() == 0 ==> {
                &&& r == (Poll::<T>::Pending, None::<u64>)
                &&& final(self).queue() == old(self).queue()
            },
    {
        proof {
            lemma_waiting_state();
        }
        match self.ring.try_pop() {
            Some(item) => {
                let woken = self.producer.wake_by_ref();
                (Poll::Ready(item), woken)
            },
            None => (Poll::Pending, None),
        }
    }

    /// One step of `recv`: take the oldest item and wake the producer; on an
    /// empty ring register on the consumer notifier, then re-examine — if the
    /// channel closed, drain once more and report `None` only when truly
    /// empty (the double-check that keeps the last item from being lost).
    pub fn poll_recv(&mut self, w: u64) -> (r: (Poll<Option<T>>, Option<u64>))
        requires
            old(self).wf(),
        ensures
            final(self).wf(),
            final(self).sent() == old(self).sent(),
            final(self).slots() == old(self).slots(),
            final(self).closed_spec() == old(self).closed_spec(),
            final(self).producer_waiter() == old(self).producer_waiter(),
            old(self).queue().len() > 0 ==> {
                &&& r.0 == Poll::Ready(Some(old(self).queue().first()))
                &&& r.1 == old(self).producer_waiter()
                &&& final(self).queue() == old(self).queue().drop_first()
                &&& final(self).consumer_waiter() == old(self).consumer_waiter()
            },
            old(self).queue().len() == 0 && old(self).closed_spec() ==> {
                &&& r == (Poll::Ready(None::<T>), None::<u64>)
                &&& final(self).queue() == old(self).queue()
                &&& final(self).consumer_waiter() == Some(w)
            },
            old(self).queue().len() == 0 && !old(self).closed_spec() ==> {
                &&& r == (Poll::<Option<T>>::Pending, None::<u64>)
                &&& final(self).queue() == old(self).queue()
                &&& final(self).consumer_waiter() == Some(w)
            },
    {
        proof {
            lemma_waiting_state();
        }
        let (first, woken) = self.poll_next_msg();
        if let Poll::Ready(item) = first {
            return (Poll::Ready(Some(item)), woken);
        }
        let _ = self.consumer.register(w);
        // Double-check: an item may have been staged, or the channel closed,
        // between the pop above and the registration.
        if self.is_closed() {
            let (second, woken2) = self.poll_next_msg();
            match second {
                Poll::Ready(item) => (Poll::Ready(Some(item)), woken2),
                Poll::Pending => (Poll::Ready(None), None),
            }
        } else {
            let (second, woken2) = self.poll_next_msg();
            match second {
                Poll::Ready(item) => (Poll::Ready(Some(item)), woken2),
                Poll::Pending => (Poll::Pending, None),
            }
        }
    }

    /// One step of `want_recv`, for batch consumers that only want to hear
    /// "something is there now": register on the consumer notifier, wake the
    /// producer, and suspend only while the ring is empty.
    pub fn poll_want_recv(&mut self, w: u64) -> (r: (Poll<()>, Option<u64>))
        requires
            old(self).wf(),
        ensures
            final(self).wf(),
            final(self).queue() == old(self).queue(),
            final(self).sent() == old(self).sent(),
            final(self).slots() == old(self).slots(),
            final(self).closed_spec() == old(self).closed_spec(),
            old(self).closed_spec() ==> {
                &&& r == (Poll::Ready(()), None::<u64>)
                &&& final(self).consumer_waiter() == old(self).consumer_waiter()
                &&& final(self).producer_waiter() == old(self).producer_waiter()
            },
            !old(self).closed_spec() ==> {
                &&& final(self).consumer_waiter() == Some(w)
                &&& final(self).producer_waiter() == old(self).producer_waiter()
                &&& r.1 == old(self).producer_waiter()
                &&& (old(self).queue().len() == 0 ==> r.0 == Poll::<()>::Pending)
                &&& (old(self).queue().len() > 0 ==> r.0 == Poll::Ready(()))
            },
    {
        proof {
            lemma_waiting_state();
        }
        if self.is_closed() {
            return (Poll::Ready(()), None);
        }
        let _ = self.consumer.register(w);
        let woken = self.producer.wake_by_ref();
        if self.ring.is_empty() {
            (Poll::Pending, woken)
        } else {
            (Poll::Ready(()), woken)
        }
    }

    /// Whether either endpoint has closed the channel.
    pub fn is_closed(&self) -> (r: bool)
        ensures
            r == self.closed_spec(),
    {
        self.closed
    }

    /// The producer endpoint's close (and its drop): refuse further traffic
    /// and wake the consumer, so a suspended `recv` drains and sees `None`.
    pub fn close_producer(&mut self) -> (woken: Option<u64>)
        requires
            old(self).wf(),
        ensures
            final(self).wf(),
            final(self).queue() == old(self).queue(),
            final(self).sent() == old(self).sent(),
            final(self).slots() == old(self).slots(),
            final(self).closed_spec(),
            final(self).consumer_waiter() == old(self).consumer_waiter(),
            final(self).producer_waiter() == old(self).producer_waiter(),
            woken == old(self).consumer_waiter(),
    {
        proof {
            lemma_waiting_state();
        }
        self.closed = true;
        self.consumer.wake_by_ref()
    }

    /// The consumer endpoint's close (and its drop): refuse further sends and
    /// wake the producer, so a suspended `send` or `flush` sees
    /// `Disconnected`. The consumer may still drain buffered items.
    pub fn close_consumer(&mut self) -> (woken: Option<u64>)
        requires
            old(self).wf(),
        ensures
            final(self).wf(),
            final(self).queue() == old(self).queue(),
            final(self).sent() == old(self).sent(),
            final(self).slots() == old(self).slots(),
            final(self).closed_spec(),
            final(self).consumer_waiter() == old(self).consumer_waiter(),
            final(self).producer_waiter() == old(self).producer_waiter(),
            woken == old(self).producer_waiter(),
    {
        proof {
            lemma_waiting_state();
        }
        self.closed = true;
        self.producer.wake_by_ref()
    }
}

} // verus!
