//! Order and exactness laws, lifted from the single-step contracts.
//!
//! Every staging operation (`start_send`, `poll_send`, `send`, `push`)
//! appends one item to the channel's queue view, and every taking operation
//! (`try_recv`, `poll_recv`, `try_pop`) returns the view's first item and
//! leaves the rest. The lemmas here lift those single steps to whole runs:
//! staging a batch appends it unchanged, and a drain returns exactly the
//! staged items, in production order, with nothing lost and nothing
//! duplicated.

use vstd::prelude::*;

verus! {

/// The queue after staging each item of `items`, in order, onto `q`: one
/// `push` per staging step.
pub open spec fn staged<T>(q: Seq<T>, items: Seq<T>) -> Seq<T>
    decreases items.len(),
{
    if items.len() == 0 {
        q
    } else {
        staged(q.push(items.first()), items.drop_first())
    }
}

/// The items `k` single takes return, in order: each take yields the queue's
/// first item and leaves the rest.
pub open spec fn drained<T>(q: Seq<T>, k: nat) -> Seq<T>
    decreases k,
{
    if k == 0 {
        Seq::empty()
    } else {
        seq![q.first()] + drained(q.drop_first(), (k - 1) as nat)
    }
}

/// The queue left behind after `k` single takes.
pub open spec fn remaining<T>(q: Seq<T>, k: nat) -> Seq<T>
    decreases k,
{
    if k == 0 {
        q
    } else {
        remaining(q.drop_first(), (k - 1) as nat)
    }
}

/// Staging a batch appends it to the queue unchanged: no staged item is
/// reordered, dropped or duplicated on its way in.
pub proof fn lemma_staging_appends<T>(q: Seq<T>, items: Seq<T>)
    ensures
        staged(q, items) == q + items,
    decreases items.len(),
{
    if items.len() == 0 {
        assert(q + items =~= q);
    } else {
        lemma_staging_appends(q.push(items.first()), items.drop_first());
        assert(q.push(items.first()) + items.drop_first() =~= q + items);
    }
}

/// FIFO with no loss and no duplication: draining `k` takes from a queue
/// returns exactly its first `k` items in order and leaves exactly the rest.
pub proof fn lemma_fifo_drain<T>(q: Seq<T>, k: nat)
    requires
        k <= q.len(),
    ensures
        drained(q, k) == q.take(k as int),
        remaining(q, k) == q.skip(k as int),
    decreases k,
{
    if k == 0 {
        assert(drained(q, k) =~= q.take(0));
        assert(remaining(q, k) =~= q.skip(0));
    } else {
        lemma_fifo_drain(q.drop_first(), (k - 1) as nat);
        assert(drained(q, k) =~= q.take(k as int));
        assert(remaining(q, k) =~= q.skip(k as int));
    }
}

/// No duplication, no loss on orderly close: a producer that stages `items`
/// onto an empty channel and closes hands the consumer exactly `items`, in
/// production order, once the consumer drains to the end.
pub proof fn lemma_no_loss_on_close<T>(items: Seq<T>)
    ensures
        drained(staged(Seq::empty(), items), items.len()) == items,
        remaining(staged(Seq::empty(), items), items.len()) == Seq::<T>::empty(),
{
    lemma_staging_appends(Seq::empty(), items);
    assert(staged(Seq::empty(), items) =~= items);
    lemma_fifo_drain(items, items.len());
    assert(items.take(items.len() as int) =~= items);
    assert(items.skip(items.len() as int) =~= Seq::<T>::empty());
}

/// FIFO order between any two items: of two values staged in program order,
/// the earlier one is taken at an earlier drain step, and each step yields
/// the value staged at its own rank.
pub proof fn lemma_fifo_order<T>(items: Seq<T>, i: int, j: int)
    requires
        0 <= i < j < items.len(),
    ensures
        drained(staged(Seq::empty(), items), items.len())[i] == items[i],
        drained(staged(Seq::empty(), items), items.len())[j] == items[j],
{
    lemma_no_loss_on_close(items);
}

/// One queue effect of a channel operation: a successful staging appends one
/// item, and a successful take removes the oldest (a take on an empty queue
/// yields nothing and changes nothing, as the `Empty` and `Pending` outcomes
/// do).
pub enum QueueOp<T> {
    /// A staged item: the effect of a successful `start_send`, `poll_send`,
    /// `send` or `push`.
    Stage(T),
    /// A take: the effect of a `try_recv`, `poll_recv` or `try_pop`.
    Take,
}

/// The queue and the taken items after one effect.
pub open spec fn apply_op<T>(q: Seq<T>, taken: Seq<T>, op: QueueOp<T>) -> (Seq<T>, Seq<T>) {
    match op {
        QueueOp::Stage(v) => (q.push(v), taken),
        QueueOp::Take => if q.len() > 0 {
            (q.drop_first(), taken.push(q.first()))
        } else {
            (q, taken)
        },
    }
}

/// The queue and the taken items after a whole run of effects, in order.
pub open spec fn run_ops<T>(q: Seq<T>, taken: Seq<T>, ops: Seq<QueueOp<T>>) -> (Seq<T>, Seq<T>)
    decreases ops.len(),
{
    if ops.len() == 0 {
        (q, taken)
    } else {
        let (q1, taken1) = apply_op(q, taken, ops.first());
        run_ops(q1, taken1, ops.drop_first())
    }
}

/// The values a run of effects stages, in production order.
pub open spec fn staged_values<T>(ops: Seq<QueueOp<T>>) -> Seq<T>
    decreases ops.len(),
{
    if ops.len() == 0 {
        Seq::empty()
    } else {
        match ops.first() {
            QueueOp::Stage(v) => seq![v] + staged_values(ops.drop_first()),
            QueueOp::Take => staged_values(ops.drop_first()),
        }
    }
}

/// FIFO under any interleaving: however stagings and takes alternate, what
/// has been taken so far, followed by what still waits in the queue, is
/// exactly what was staged, in production order. Nothing is lost, duplicated
/// or reordered at any intermediate point of the run.
pub proof fn lemma_interleaved_fifo<T>(q: Seq<T>, taken: Seq<T>, ops: Seq<QueueOp<T>>)
    ensures
        ({
            let (q1, taken1) = run_ops(q, taken, ops);
            taken1 + q1 == taken + q + staged_values(ops)
        }),
    decreases ops.len(),
{
    if ops.len() == 0 {
        assert(taken + q + staged_values(ops) =~= taken + q);
    } else {
        let rest = ops.drop_first();
        match ops.first() {
            QueueOp::Stage(v) => {
                lemma_interleaved_fifo(q.push(v), taken, rest);
                assert(taken + q.push(v) + staged_values(rest) =~= taken + q + staged_values(ops));
            },
            QueueOp::Take => {
                if q.len() > 0 {
                    lemma_interleaved_fifo(q.drop_first(), taken.push(q.first()), rest);
                    assert(taken.push(q.first()) + q.drop_first() + staged_values(rest) =~= taken
                        + q + staged_values(ops));
                } else {
                    lemma_interleaved_fifo(q, taken, rest);
                    assert(taken + q + staged_values(rest) =~= taken + q + staged_values(ops));
                }
            },
        }
    }
}

/// The prefix form on a fresh channel: at every point of any interleaved run,
/// the consumer has observed exactly the first so-many staged values, in
/// production order, and the rest still wait in the queue.
pub proof fn lemma_interleaved_fifo_prefix<T>(ops: Seq<QueueOp<T>>)
    ensures
        ({
            let (q1, taken1) = run_ops(Seq::empty(), Seq::empty(), ops);
            &&& taken1 + q1 == staged_values(ops)
            &&& taken1 == staged_values(ops).take(taken1.len() as int)
            &&& q1 == staged_values(ops).skip(taken1.len() as int)
        }),
{
    lemma_interleaved_fifo(Seq::empty(), Seq::empty(), ops);
    let (q1, taken1) = run_ops(Seq::<T>::empty(), Seq::<T>::empty(), ops);
    assert(taken1 + q1 =~= staged_values(ops));
    assert(taken1 =~= staged_values(ops).take(taken1.len() as int));
    assert(q1 =~= staged_values(ops).skip(taken1.len() as int));
}

} // verus!
