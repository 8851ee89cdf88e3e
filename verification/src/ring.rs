//! Fixed-capacity SPSC ring over monotone position counters.
//!
//! A ring owns `capacity` slots, a non-decreasing producer position and a
//! non-decreasing consumer position. A position indexes its slot modulo the
//! capacity; one slot is always kept free, so `empty` is `producer ==
//! consumer` and `full` is `producer - consumer == capacity - 1`. The slots in
//! `[consumer, producer)` hold the staged items, oldest first; all other slots
//! are vacant.
//!
//! The mapping from position to slot index is an [`Indexer`]: [`And`] masks
//! with `capacity - 1` (capacity a power of two, the fast default), and
//! [`Remainder`] divides by an arbitrary capacity, for callers who want the
//! observed depth to equal the requested size exactly.

use crate::padded::{padded_new, padded_read, padded_value, padded_write};
use cache_padded::CachePadded;
use vstd::prelude::*;

verus! {

use vstd::arithmetic::div_mod::{lemma_fundamental_div_mod, lemma_mod_bound};
use vstd::arithmetic::power2::{
    lemma2_to64,
    lemma2_to64_rest,
    lemma_pow2_adds,
    lemma_pow2_strictly_increases,
    pow2,
};
use vstd::bits::{lemma_usize_low_bits_mask_is_mod, low_bits_mask};
use vstd::math::max;

/// Maps a monotone position onto a slot index in `[0, cap)`.
pub trait Indexer: Sized {
    /// The indexer's internal consistency.
    spec fn wf(&self) -> bool;

    /// How many slots the indexer maps positions onto.
    spec fn cap_spec(&self) -> int;

    /// A well-formed indexer has at least two slots: one is always reserved
    /// so that full and empty are distinguishable.
    proof fn cap_at_least_two(&self)
        requires
            self.wf(),
        ensures
            self.cap_spec() >= 2,
    ;

    /// The slot index of a position: the position modulo the capacity.
    fn index(&self, pos: usize) -> (r: usize)
        requires
            self.wf(),
        ensures
            r == pos as int % self.cap_spec(),
    ;

    /// The capacity.
    fn cap(&self) -> (r: usize)
        requires
            self.wf(),
        ensures
            r == self.cap_spec(),
    ;
}

/// Indexes by bitmask: the capacity is a power of two and the mask is one
/// less, so `pos & mask == pos % capacity`.
pub struct And {
    mask: usize,
    cap: usize,
}

impl Indexer for And {
    closed spec fn wf(&self) -> bool {
        exists|n: nat| 1 <= n < usize::BITS && self.cap == pow2(n) && self.mask + 1 == self.cap
    }

    closed spec fn cap_spec(&self) -> int {
        self.cap as int
    }

    proof fn cap_at_least_two(&self) {
        let n = choose|n: nat|
            1 <= n < usize::BITS && self.cap == pow2(n) && self.mask + 1 == self.cap;
        lemma2_to64();
        if n > 1 {
            lemma_pow2_strictly_increases(1, n);
        }
    }

    fn index(&self, pos: usize) -> (r: usize) {
        proof {
            let n = choose|n: nat|
                1 <= n < usize::BITS && self.cap == pow2(n) && self.mask + 1 == self.cap;
            lemma_usize_low_bits_mask_is_mod(pos, n);
            assert(self.mask == low_bits_mask(n) as usize);
        }
        pos & self.mask
    }

    fn cap(&self) -> (r: usize) {
        self.cap
    }
}

/// Indexes by remainder: any capacity of at least two slots.
pub struct Remainder {
    cap: usize,
}

impl Indexer for Remainder {
    closed spec fn wf(&self) -> bool {
        self.cap >= 2
    }

    closed spec fn cap_spec(&self) -> int {
        self.cap as int
    }

    proof fn cap_at_least_two(&self) {
    }

    fn index(&self, pos: usize) -> (r: usize) {
        pos % self.cap
    }

    fn cap(&self) -> (r: usize) {
        self.cap
    }
}

/// Positions that land on distinct slots: two positions less than the
/// capacity apart index distinct slots.
proof fn lemma_distinct_slots(a: int, b: int, m: int)
    requires
        0 < m,
        0 <= a < b,
        b - a < m,
    ensures
        a % m != b % m,
{
    lemma_fundamental_div_mod(a, m);
    lemma_fundamental_div_mod(b, m);
    lemma_mod_bound(a, m);
    lemma_mod_bound(b, m);
    if a % m == b % m {
        let d = b / m - a / m;
        assert(b - a == m * d) by (nonlinear_arith)
            requires
                a == m * (a / m) + a % m,
                b == m * (b / m) + b % m,
                a % m == b % m,
                d == b / m - a / m,
        ;
        assert(d >= 1 ==> m * d >= m) by (nonlinear_arith)
            requires
                m > 0,
        ;
        assert(d <= 0 ==> m * d <= 0) by (nonlinear_arith)
            requires
                m > 0,
        ;
    }
}

/// The smallest power of two at or above `need`, as `[And]`'s capacity.
fn next_pow2_at_least(need: usize) -> (c: usize)
    requires
        2 <= need,
        need <= usize::MAX / 2 + 1,
    ensures
        exists|n: nat| 1 <= n < usize::BITS && c == pow2(n),
        need <= c < 2 * need,
{
    proof {
        lemma2_to64();
    }
    let mut c: usize = 2;
    let ghost mut k: nat = 1;
    while c < need
        invariant
            1 <= k < usize::BITS,
            c == pow2(k),
            c < 2 * need,
            2 <= need <= usize::MAX / 2 + 1,
        decreases 2 * need - c,
    {
        proof {
            lemma_pow2_adds(k, 1);
            lemma2_to64();
            lemma2_to64_rest();
            assert(pow2(k + 1) == 2 * pow2(k));
            // 2c still fits, so the next exponent is below the word width.
            assert(2 * c <= usize::MAX);
            if k + 1 >= usize::BITS {
                if k + 1 > usize::BITS {
                    lemma_pow2_strictly_increases(usize::BITS as nat, k + 1);
                }
                assert(false);
            }
            k = k + 1;
        }
        c = c * 2;
    }
    c
}

/// Fixed-capacity SPSC slot array with producer and consumer positions.
///
/// The view is the staged items, oldest first. Positions grow by one per
/// staged or taken item and index modulo the capacity; they are wide enough
/// not to wrap in practice, which the contracts state as explicit bounds.
pub struct Ring<T, I: Indexer> {
    buf: Vec<Option<T>>,
    indexer: I,
    producer_pos: CachePadded<usize>,
    consumer_pos: CachePadded<usize>,
}

impl<T, I: Indexer> Ring<T, I> {
    /// The producer position: how many items were ever staged.
    pub closed spec fn prod(&self) -> int {
        padded_value(self.producer_pos) as int
    }

    /// The consumer position: how many items were ever taken.
    pub closed spec fn cons(&self) -> int {
        padded_value(self.consumer_pos) as int
    }

    /// The slot count.
    pub closed spec fn cap_spec(&self) -> int {
        self.indexer.cap_spec()
    }

    /// Well-formed: the positions are at most `capacity - 1` apart, and every
    /// position in `[consumer, producer)` has its slot occupied.
    pub closed spec fn wf(&self) -> bool {
        &&& self.indexer.wf()
        &&& 2 <= self.cap_spec()
        &&& self.buf.len() == self.cap_spec()
        &&& 0 <= self.cons() <= self.prod()
        &&& self.prod() - self.cons() <= self.cap_spec() - 1
        &&& forall|p: int|
            self.cons() <= p < self.prod() ==> (#[trigger] self.buf[p % self.cap_spec()]) is Some
    }

    /// The staged items, oldest first.
    pub closed spec fn view(&self) -> Seq<T> {
        Seq::new(
            (self.prod() - self.cons()) as nat,
            |i: int| self.buf[(self.cons() + i) % self.cap_spec()].unwrap(),
        )
    }

    /// What well-formedness yields about the positions: they are at most the
    /// reserved-slot bound apart, and the staged items are exactly the
    /// positions between them.
    pub proof fn lemma_wf_properties(&self)
        requires
            self.wf(),
        ensures
            2 <= self.cap_spec(),
            0 <= self.cons() <= self.prod(),
            self@.len() == self.prod() - self.cons(),
            self@.len() <= self.cap_spec() - 1,
    {
    }

    /// A fresh ring over the given indexer: all slots vacant, both positions
    /// zero.
    pub fn new(indexer: I) -> (r: Self)
        requires
            indexer.wf(),
        ensures
            r.wf(),
            r@ == Seq::<T>::empty(),
            r.cap_spec() == indexer.cap_spec(),
            r.prod() == 0,
            r.cons() == 0,
    {
        proof {
            indexer.cap_at_least_two();
        }
        let cap = indexer.cap();
        let mut buf: Vec<Option<T>> = Vec::new();
        let mut i: usize = 0;
        while i < cap
            invariant
                i <= cap,
                buf.len() == i,
            decreases cap - i,
        {
            buf.push(None);
            i = i + 1;
        }
        let r = Ring {
            buf,
            indexer,
            producer_pos: padded_new(0),
            consumer_pos: padded_new(0),
        };
        proof {
            assert(r@ =~= Seq::<T>::empty());
        }
        r
    }

    /// The slot count. One slot is always reserved, so at most `capacity - 1`
    /// items are staged at a time.
    pub fn capacity(&self) -> (r: usize)
        requires
            self.wf(),
        ensures
            r == self.cap_spec(),
    {
        self.indexer.cap()
    }

    /// How many items are staged.
    pub fn len(&self) -> (r: usize)
        requires
            self.wf(),
        ensures
            r == self@.len(),
    {
        let p = padded_read(&self.producer_pos);
        let c = padded_read(&self.consumer_pos);
        proof {
            vstd::arithmetic::div_mod::lemma_small_mod((p - c) as nat, self.cap_spec() as nat);
        }
        self.indexer.index(p - c)
    }

    /// True when no item is staged.
    pub fn is_empty(&self) -> (r: bool)
        requires
            self.wf(),
        ensures
            r == (self@.len() == 0),
    {
        padded_read(&self.consumer_pos) == padded_read(&self.producer_pos)
    }

    /// True when every usable slot is staged: one more `set` must wait.
    pub fn is_full(&self) -> (r: bool)
        requires
            self.wf(),
        ensures
            r == (self@.len() == self.cap_spec() - 1),
    {
        self.capacity() - self.len() == 1
    }

    /// The slot index for the next staged item, or `None` when the ring is
    /// full.
    pub fn next_idx(&self) -> (r: Option<usize>)
        requires
            self.wf(),
        ensures
            self@.len() == self.cap_spec() - 1 ==> r is None,
            self@.len() < self.cap_spec() - 1 ==> r is Some && r.unwrap() == self.prod()
                % self.cap_spec(),
    {
        if self.is_full() {
            None
        } else {
            let next = padded_read(&self.producer_pos);
            Some(self.indexer.index(next))
        }
    }

    /// Stages `item` in the slot the producer position indexes, then
    /// publishes the position. The slot write precedes the position publish.
    pub fn set(&mut self, item: T, idx: usize)
        requires
            old(self).wf(),
            old(self)@.len() < old(self).cap_spec() - 1,
            idx == old(self).prod() % old(self).cap_spec(),
            old(self).prod() < usize::MAX,
        ensures
            final(self).wf(),
            final(self)@ == old(self)@.push(item),
            final(self).cons() == old(self).cons(),
            final(self).prod() == old(self).prod() + 1,
            final(self).cap_spec() == old(self).cap_spec(),
    {
        proof {
            lemma_mod_bound(self.prod(), self.cap_spec());
        }
        let ghost before = *self;
        self.buf[idx] = Some(item);
        let now = padded_read(&self.producer_pos);
        padded_write(&mut self.producer_pos, now + 1);
        proof {
            assert forall|i: int| 0 <= i < before@.len() implies self@[i] == before@[i] by {
                lemma_distinct_slots(before.cons() + i, before.prod(), before.cap_spec());
                lemma_mod_bound(before.cons() + i, before.cap_spec());
            }
            assert(self@[before@.len() as int] == item);
            assert(self@ =~= before@.push(item));
        }
    }

    /// Takes the oldest staged item, if any: reads the slot the consumer
    /// position indexes, vacates it, and publishes the advanced position.
    pub fn try_pop(&mut self) -> (r: Option<T>)
        requires
            old(self).wf(),
        ensures
            final(self).wf(),
            final(self).cap_spec() == old(self).cap_spec(),
            final(self).prod() == old(self).prod(),
            old(self)@.len() == 0 ==> r is None && final(self)@ == old(self)@
                && final(self).cons() == old(self).cons(),
            old(self)@.len() > 0 ==> r == Some(old(self)@.first())
                && final(self)@ == old(self)@.drop_first()
                && final(self).cons() == old(self).cons() + 1,
    {
        if self.is_empty() {
            None
        } else {
            let ghost before = *self;
            let now = padded_read(&self.consumer_pos);
            let idx = self.indexer.index(now);
            padded_write(&mut self.consumer_pos, now + 1);
            proof {
                lemma_mod_bound(before.cons(), before.cap_spec());
            }
            self.buf.push(None);
            let taken = self.buf.swap_remove(idx);
            proof {
                assert forall|i: int| 0 <= i < self@.len() implies self@[i] == before@[i + 1] by {
                    lemma_distinct_slots(before.cons(), before.cons() + 1 + i, before.cap_spec());
                    lemma_mod_bound(before.cons() + 1 + i, before.cap_spec());
                }
                assert(self@ =~= before@.drop_first());
                assert forall|p: int|
                    self.cons() <= p < self.prod() implies (#[trigger] self.buf[p
                    % self.cap_spec()]) is Some by {
                    lemma_distinct_slots(before.cons(), p, before.cap_spec());
                    lemma_mod_bound(p, before.cap_spec());
                }
            }
            match taken {
                Some(item) => Some(item),
                None => vstd::pervasive::unreached(),
            }
        }
    }
}

impl<T> Ring<T, And> {
    /// A ring of `max(size + 1, 2)` slots rounded up to the next power of
    /// two, indexed by bitmask.
    pub fn with_capacity(size: usize) -> (r: Self)
        requires
            size + 1 <= usize::MAX / 2 + 1,
        ensures
            r.wf(),
            r@ == Seq::<T>::empty(),
            r.prod() == 0,
            r.cons() == 0,
            (exists|n: nat| r.cap_spec() == pow2(n)),
            max(size + 1, 2) <= r.cap_spec() < 2 * max(size + 1, 2),
    {
        let need = if size < 1 {
            2
        } else {
            size + 1
        };
        let cap = next_pow2_at_least(need);
        let indexer = And { mask: cap - 1, cap };
        Ring::new(indexer)
    }
}

impl<T> Ring<T, Remainder> {
    /// A ring of exactly `max(size + 1, 2)` slots, indexed by remainder.
    pub fn with_capacity(size: usize) -> (r: Self)
        requires
            size < usize::MAX,
        ensures
            r.wf(),
            r@ == Seq::<T>::empty(),
            r.prod() == 0,
            r.cons() == 0,
            r.cap_spec() == max(size + 1, 2),
    {
        let cap = if size < 1 {
            2
        } else {
            size + 1
        };
        let indexer = Remainder { cap };
        Ring::new(indexer)
    }
}

} // verus!
