//! Unbounded SPSC FIFO over a chain of fixed-size blocks.
//!
//! Positions are global and monotone; a position's slot sits in block
//! `position / BLOCK_SIZE` at offset `position % BLOCK_SIZE`. The queue keeps
//! the chain of live blocks from the consumer's block to the producer's
//! block: when the producer fills the last slot of its block it links in a
//! fresh block, and when the consumer drains the last slot of its block it
//! frees the old block and moves to the next. The slots from the consumer
//! position (inclusive) to the producer position (exclusive) hold the staged
//! items; all other slots are vacant.

use vstd::prelude::*;

verus! {

use vstd::arithmetic::div_mod::{
    lemma_div_is_ordered,
    lemma_fundamental_div_mod,
    lemma_fundamental_div_mod_converse,
    lemma_mod_bound,
};
use vstd::arithmetic::power2::{lemma2_to64, pow2};
use vstd::bits::{lemma_low_bits_mask_values, lemma_usize_low_bits_mask_is_mod, low_bits_mask};

/// Slots per block, a power of two.
pub const BLOCK_SIZE: usize = 128;

/// Mask extracting a position's offset within its block.
pub const BLOCK_MASK: usize = BLOCK_SIZE - 1;

/// The offset of a position within its block.
fn block_offset(pos: usize) -> (r: usize)
    ensures
        r == pos as int % BLOCK_SIZE as int,
{
    proof {
        lemma2_to64();
        lemma_low_bits_mask_values();
        lemma_usize_low_bits_mask_is_mod(pos, 7);
        assert(low_bits_mask(7) as usize == BLOCK_MASK);
        assert(pow2(7) as usize == BLOCK_SIZE) by {
            lemma2_to64();
        }
    }
    pos & BLOCK_MASK
}

/// One block: `BLOCK_SIZE` slots. Adjacency in the queue's chain stands for
/// the link to the next block.
struct Block<T> {
    slots: Vec<Option<T>>,
}

impl<T> Block<T> {
    /// A fresh block: all slots vacant.
    fn new() -> (b: Self)
        ensures
            b.slots.len() == BLOCK_SIZE,
    {
        let mut slots: Vec<Option<T>> = Vec::new();
        let mut i: usize = 0;
        while i < BLOCK_SIZE
            invariant
                i <= BLOCK_SIZE,
                slots.len() == i,
            decreases BLOCK_SIZE - i,
        {
            slots.push(None);
            i = i + 1;
        }
        Block { slots }
    }
}

/// Linked blocks of slots forming an unbounded SPSC FIFO.
///
/// The view is the staged items, oldest first. Positions grow by one per
/// pushed or popped item; they are wide enough not to wrap in practice, which
/// the contracts state as explicit bounds.
pub struct Queue<T> {
    blocks: Vec<Block<T>>,
    producer_pos: usize,
    consumer_pos: usize,
}

impl<T> Queue<T> {
    /// The producer position: how many items were ever pushed.
    pub closed spec fn prod(&self) -> int {
        self.producer_pos as int
    }

    /// The consumer position: how many items were ever popped.
    pub closed spec fn cons(&self) -> int {
        self.consumer_pos as int
    }

    /// The chain index of the block holding position `p`.
    closed spec fn block_of(&self, p: int) -> int {
        p / (BLOCK_SIZE as int) - self.cons() / (BLOCK_SIZE as int)
    }

    /// Well-formed: the chain spans exactly the blocks from the consumer's to
    /// the producer's, every block has `BLOCK_SIZE` slots, and every position
    /// in `[consumer, producer)` has its slot occupied.
    pub closed spec fn wf(&self) -> bool {
        &&& 0 <= self.cons() <= self.prod()
        &&& self.blocks.len() == self.block_of(self.prod()) + 1
        &&& forall|b: int|
            0 <= b < self.blocks.len() ==> (#[trigger] self.blocks[b].slots).len() == BLOCK_SIZE
        &&& forall|p: int|
            self.cons() <= p < self.prod() ==> (#[trigger] self.blocks[self.block_of(p)].slots[p
                % (BLOCK_SIZE as int)]) is Some
    }

    /// The staged items, oldest first.
    pub closed spec fn view(&self) -> Seq<T> {
        Seq::new(
            (self.prod() - self.cons()) as nat,
            |i: int|
                self.blocks[self.block_of(self.cons() + i)].slots[(self.cons() + i) % (
                BLOCK_SIZE as int)].unwrap(),
        )
    }

    /// A fresh queue: one empty block, both positions zero.
    pub fn new() -> (q: Self)
        ensures
            q.wf(),
            q@ == Seq::<T>::empty(),
            q.prod() == 0,
            q.cons() == 0,
    {
        let mut blocks: Vec<Block<T>> = Vec::new();
        blocks.push(Block::new());
        let q = Queue { blocks, producer_pos: 0, consumer_pos: 0 };
        proof {
            assert(q@ =~= Seq::<T>::empty());
        }
        q
    }

    /// True when no item is staged.
    pub fn is_empty(&self) -> (r: bool)
        requires
            self.wf(),
        ensures
            r == (self@.len() == 0),
    {
        self.producer_pos == self.consumer_pos
    }

    /// Pushes `item`: writes the slot the producer position indexes, links in
    /// a fresh block when that was the block's last slot, then publishes the
    /// advanced position. The slot write and the link precede the publish.
    pub fn push(&mut self, item: T)
        requires
            old(self).wf(),
            old(self).prod() < usize::MAX,
        ensures
            final(self).wf(),
            final(self)@ == old(self)@.push(item),
            final(self).cons() == old(self).cons(),
            final(self).prod() == old(self).prod() + 1,
    {
        let ghost before = *self;
        let now = self.producer_pos;
        let now_idx = block_offset(now);
        let next = now + 1;
        proof {
            lemma_fundamental_div_mod(now as int, BLOCK_SIZE as int);
            lemma_mod_bound(now as int, BLOCK_SIZE as int);
            lemma_mod_bound(before.cons(), BLOCK_SIZE as int);
            lemma_fundamental_div_mod(before.cons(), BLOCK_SIZE as int);
            let q = now as int / (BLOCK_SIZE as int);
            if now as int % (BLOCK_SIZE as int) < BLOCK_SIZE - 1 {
                lemma_fundamental_div_mod_converse(
                    next as int,
                    BLOCK_SIZE as int,
                    q,
                    now as int % (BLOCK_SIZE as int) + 1,
                );
            } else {
                lemma_fundamental_div_mod_converse(next as int, BLOCK_SIZE as int, q + 1, 0);
            }
        }
        let next_idx = block_offset(next);
        let taken = self.blocks.pop();
        match taken {
            Some(mut blk) => {
                blk.slots[now_idx] = Some(item);
                self.blocks.push(blk);
            },
            None => {
                proof {
                    assert(false);
                }
            },
        }
        if next_idx < now_idx {
            // The producer's block is full: link in a fresh one.
            self.blocks.push(Block::new());
        }
        self.producer_pos = next;
        proof {
            let b = BLOCK_SIZE as int;
            assert forall|p: int|
                self.cons() <= p < self.prod() implies (
            #[trigger] self.blocks[self.block_of(p)].slots[p % b]) is Some by {
                lemma_mod_bound(p, b);
                if p < before.prod() {
                    lemma_div_in_range(before.cons(), p, before.prod(), b);
                    assert(before.blocks[before.block_of(p)].slots[p % b] is Some);
                    if p / b == before.prod() / b && p % b == now_idx as int {
                        lemma_slot_injective(p, before.prod());
                    }
                }
            }
            assert forall|i: int| 0 <= i < before@.len() implies self@[i] == before@[i] by {
                let p = before.cons() + i;
                lemma_mod_bound(p, b);
                lemma_div_in_range(before.cons(), p, before.prod(), b);
                assert(before.blocks[before.block_of(p)].slots[p % b] is Some);
                if p / b == before.prod() / b && p % b == now_idx as int {
                    lemma_slot_injective(p, before.prod());
                }
            }
            assert(self@[before@.len() as int] == item);
            assert(self@ =~= before@.push(item));
        }
    }

    /// Pops the oldest staged item, if any: reads the slot the consumer
    /// position indexes, frees the block when that was its last slot, then
    /// publishes the advanced position.
    pub fn try_pop(&mut self) -> (r: Option<T>)
        requires
            old(self).wf(),
        ensures
            final(self).wf(),
            final(self).prod() == old(self).prod(),
            old(self)@.len() == 0 ==> r is None && final(self)@ == old(self)@
                && final(self).cons() == old(self).cons(),
            old(self)@.len() > 0 ==> r == Some(old(self)@.first())
                && final(self)@ == old(self)@.drop_first()
                && final(self).cons() == old(self).cons() + 1,
    {
        if self.is_empty() {
            None
        } else {
            let ghost before = *self;
            let now = self.consumer_pos;
            let now_idx = block_offset(now);
            let next = now + 1;
            proof {
                lemma_fundamental_div_mod(now as int, BLOCK_SIZE as int);
                lemma_mod_bound(now as int, BLOCK_SIZE as int);
                lemma_fundamental_div_mod(before.prod(), BLOCK_SIZE as int);
                lemma_mod_bound(before.prod(), BLOCK_SIZE as int);
                let q = now as int / (BLOCK_SIZE as int);
                if now as int % (BLOCK_SIZE as int) < BLOCK_SIZE - 1 {
                    lemma_fundamental_div_mod_converse(
                        next as int,
                        BLOCK_SIZE as int,
                        q,
                        now as int % (BLOCK_SIZE as int) + 1,
                    );
                } else {
                    lemma_fundamental_div_mod_converse(next as int, BLOCK_SIZE as int, q + 1, 0);
                }
            }
            let next_idx = block_offset(next);
            proof {
                let b = BLOCK_SIZE as int;
                lemma_div_in_range(before.cons(), before.cons(), before.prod(), b);
                assert(before.blocks[before.block_of(before.cons())].slots[before.cons()
                    % b] is Some);
            }
            let mut blk = self.blocks.remove(0);
            blk.slots.push(None);
            let taken = blk.slots.swap_remove(now_idx);
            if next_idx < now_idx {
                // The consumer drained its block's last slot: the block is
                // freed here, and the chain now starts at the next block.
            } else {
                self.blocks.insert(0, blk);
            }
            self.consumer_pos = next;
            proof {
                let b = BLOCK_SIZE as int;
                assert forall|p: int|
                    self.cons() <= p < self.prod() implies (
                #[trigger] self.blocks[self.block_of(p)].slots[p % b]) is Some by {
                    lemma_mod_bound(p, b);
                    lemma_div_in_range(before.cons(), p, before.prod(), b);
                    lemma_div_is_ordered(before.cons() + 1, p, b);
                    assert(before.blocks[before.block_of(p)].slots[p % b] is Some);
                    if p / b == before.cons() / b && p % b == now_idx as int {
                        lemma_slot_injective(p, before.cons());
                    }
                }
                assert forall|i: int| 0 <= i < self@.len() implies self@[i] == before@[i + 1] by {
                    let p = before.cons() + 1 + i;
                    lemma_mod_bound(p, b);
                    lemma_div_in_range(before.cons(), p, before.prod(), b);
                    lemma_div_is_ordered(before.cons() + 1, p, b);
                    assert(before.blocks[before.block_of(p)].slots[p % b] is Some);
                    if p / b == before.cons() / b && p % b == now_idx as int {
                        lemma_slot_injective(p, before.cons());
                    }
                }
                assert(self@ =~= before@.drop_first());
            }
            match taken {
                Some(item) => Some(item),
                None => vstd::pervasive::unreached(),
            }
        }
    }
}

/// Distinct positions occupy distinct slots: the same block and the same
/// offset force the same position.
proof fn lemma_slot_injective(p1: int, p2: int)
    requires
        0 <= p1,
        0 <= p2,
        p1 / (BLOCK_SIZE as int) == p2 / (BLOCK_SIZE as int),
        p1 % (BLOCK_SIZE as int) == p2 % (BLOCK_SIZE as int),
    ensures
        p1 == p2,
{
    lemma_fundamental_div_mod(p1, BLOCK_SIZE as int);
    lemma_fundamental_div_mod(p2, BLOCK_SIZE as int);
}

/// A position between two others sits in a block between theirs.
proof fn lemma_div_in_range(lo: int, p: int, hi: int, b: int)
    requires
        0 < b,
        lo <= p <= hi,
    ensures
        lo / b <= p / b <= hi / b,
{
    lemma_div_is_ordered(lo, p, b);
    lemma_div_is_ordered(p, hi, b);
}

} // verus!
