//! The notifier's register/wake handoff, proved over every interleaving.
//!
//! [`crate::notifier`] verifies `register` and `wake_by_ref` as sequential
//! steps. Their real counterparts run on two tasks at once, serialized only
//! by the atomic read-modify-write operations on the state byte. This module
//! models one `register(fresh)` and one `wake_by_ref` as sequences of those
//! atomic operations, lets the two sequences interleave in every order, and
//! proves the discipline the bits are for:
//!
//! - the continuation slot is never written by the registrant while the waker
//!   is reading it (the point of taking `REGISTERING` before touching the
//!   slot, and `WAKING` before reading it);
//! - every complete run settles the state byte back to `WAITING` — in the
//!   crossing case precisely because the registrant's release uses a swap,
//!   not a plain store;
//! - a wake whose bit-take follows the register's bit-take always ends with a
//!   continuation for the registering task invoked, whichever party performs
//!   the invocation: the wake is never lost, which is what keeps a suspended
//!   operation from waiting forever once its peer makes progress.

use crate::notifier::{lemma_waiting_state, FULL, REGISTERING, WAITING, WAKING};
use vstd::prelude::*;

verus! {

/// Where the registrant stands in `register`'s sequence of atomic steps.
pub enum RegPc {
    /// About to take the `REGISTERING` bit (fetch-or) and inspect the prior
    /// state.
    TakeBit,
    /// The prior state had `WAKING`: a wake owns the slot, so the registrant
    /// is about to invoke the fresh continuation itself.
    InvokeFresh,
    /// About to release the `REGISTERING` bit after the immediate invocation.
    DropBitFresh,
    /// The registrant owns the slot: about to write the fresh continuation.
    WriteSlot,
    /// About to release the `REGISTERING` bit (fetch-and) and inspect the
    /// prior value for a wake that crossed during the write.
    ReleaseBit,
    /// A wake crossed: about to invoke the just-stored continuation on the
    /// waker's behalf.
    InvokeStored,
    /// About to swap the state back to `WAITING`.
    SwapIdle,
    /// Finished.
    Done,
}

/// Where the waker stands in `wake_by_ref`'s sequence of atomic steps.
pub enum WakePc {
    /// About to take the `WAKING` bit (fetch-or) and inspect the prior state.
    TakeBit,
    /// The prior state was `WAITING`: the waker owns the slot and is about to
    /// invoke the stored continuation.
    Invoke,
    /// About to release the `WAKING` bit.
    DropBit,
    /// Finished. When the prior state held `REGISTERING`, the waker finished
    /// at once, leaving `WAKING` set for the registrant's release check.
    Done,
}

/// One register and one wake in flight over a shared notifier.
pub struct Handoff {
    /// The state byte both parties operate on atomically.
    pub state: u8,
    /// The continuation slot.
    pub stored: Option<u64>,
    /// The handle the registrant is installing.
    pub fresh: u64,
    /// Every invocation made so far, in order (`None`: the no-op handle).
    pub invoked: Seq<Option<u64>>,
    /// The registrant's position.
    pub reg_pc: RegPc,
    /// What the registrant's fetch-or revealed: a wake already in flight.
    pub reg_saw_waking: bool,
    /// The waker's position.
    pub wake_pc: WakePc,
    /// What the waker's fetch-or revealed: a registrant mid-install, so the
    /// invocation is handed off to it.
    pub wake_handed_off: bool,
    /// History: the waker took its bit after the registrant took its own.
    pub wake_after_register: bool,
}

/// A settled start: state `WAITING`, both parties at their first atomic step,
/// nothing invoked. The slot may hold any earlier continuation.
pub open spec fn initial(p: Handoff) -> bool {
    &&& p.state == WAITING
    &&& p.reg_pc is TakeBit
    &&& p.wake_pc is TakeBit
    &&& p.invoked == Seq::<Option<u64>>::empty()
    &&& !p.reg_saw_waking
    &&& !p.wake_handed_off
    &&& !p.wake_after_register
}

/// The registrant's next atomic step.
pub open spec fn reg_step(p: Handoff) -> Handoff {
    match p.reg_pc {
        RegPc::TakeBit => Handoff {
            state: p.state | REGISTERING,
            reg_saw_waking: p.state & WAKING != 0,
            reg_pc: if p.state & WAKING != 0 {
                RegPc::InvokeFresh
            } else {
                RegPc::WriteSlot
            },
            ..p
        },
        RegPc::InvokeFresh => Handoff { invoked: p.invoked.push(Some(p.fresh)), reg_pc: RegPc::DropBitFresh, ..p },
        RegPc::DropBitFresh => Handoff { state: p.state & !REGISTERING, reg_pc: RegPc::Done, ..p },
        RegPc::WriteSlot => Handoff { stored: Some(p.fresh), reg_pc: RegPc::ReleaseBit, ..p },
        RegPc::ReleaseBit => Handoff {
            state: p.state & !REGISTERING,
            reg_pc: if p.state & WAKING != 0 {
                RegPc::InvokeStored
            } else {
                RegPc::Done
            },
            ..p
        },
        RegPc::InvokeStored => Handoff { invoked: p.invoked.push(p.stored), reg_pc: RegPc::SwapIdle, ..p },
        RegPc::SwapIdle => Handoff { state: WAITING, reg_pc: RegPc::Done, ..p },
        RegPc::Done => p,
    }
}

/// The waker's next atomic step.
pub open spec fn wake_step(p: Handoff) -> Handoff {
    match p.wake_pc {
        WakePc::TakeBit => Handoff {
            state: p.state | WAKING,
            wake_handed_off: p.state & REGISTERING != 0,
            wake_after_register: !(p.reg_pc is TakeBit),
            wake_pc: if p.state == WAITING {
                WakePc::Invoke
            } else {
                WakePc::Done
            },
            ..p
        },
        WakePc::Invoke => Handoff { invoked: p.invoked.push(p.stored), wake_pc: WakePc::DropBit, ..p },
        WakePc::DropBit => Handoff { state: p.state & !WAKING, wake_pc: WakePc::Done, ..p },
        WakePc::Done => p,
    }
}

/// One atomic step by either party.
pub open spec fn step(p: Handoff, registrant_moves: bool) -> Handoff {
    if registrant_moves {
        reg_step(p)
    } else {
        wake_step(p)
    }
}

/// The state after playing out a whole schedule of steps.
pub open spec fn run(p: Handoff, sched: Seq<bool>) -> Handoff
    decreases sched.len(),
{
    if sched.len() == 0 {
        p
    } else {
        run(step(p, sched.first()), sched.drop_first())
    }
}

/// The registrant holds the `REGISTERING` bit exactly between its fetch-or
/// and its release.
pub open spec fn reg_holds_bit(p: Handoff) -> bool {
    ||| p.reg_pc is InvokeFresh
    ||| p.reg_pc is DropBitFresh
    ||| p.reg_pc is WriteSlot
    ||| p.reg_pc is ReleaseBit
}

/// The waker owns the continuation slot between its fetch-or and its release.
pub open spec fn wake_owns_slot(p: Handoff) -> bool {
    ||| p.wake_pc is Invoke
    ||| p.wake_pc is DropBit
}

/// The inductive invariant: what holds of every reachable interleaving.
pub open spec fn inv(p: Handoff) -> bool {
    let r = p.state & REGISTERING != 0;
    let k = p.state & WAKING != 0;
    // Only the two protocol bits are ever set.
    &&& p.state & !FULL == 0
    // The REGISTERING bit is held exactly across the registrant's section.
    &&& r <==> reg_holds_bit(p)
    // While the waker owns the slot it holds WAKING, taken from WAITING.
    &&& wake_owns_slot(p) ==> k && !p.wake_handed_off
    // WAKING is set only while the waker owns the slot or has handed off.
    &&& k ==> wake_owns_slot(p) || (p.wake_pc is Done && p.wake_handed_off)
    // A handed-off wake: the registrant is mid-install and will find WAKING at
    // its release, or it already took the invocation over and settled.
    &&& p.wake_pc is Done && p.wake_handed_off ==> {
        ||| (k && (p.reg_pc is WriteSlot || p.reg_pc is ReleaseBit || p.reg_pc is InvokeStored
            || p.reg_pc is SwapIdle))
        ||| (!k && p.reg_pc is Done && p.invoked.contains(Some(p.fresh)))
    }
    // Slot exclusion: while the waker owns the slot, the registrant is
    // outside its write section.
    &&& wake_owns_slot(p) ==> (p.reg_pc is TakeBit || p.reg_pc is InvokeFresh
        || p.reg_pc is DropBitFresh || p.reg_pc is Done)
    // The registrant is on its wake-in-flight path only once the waker has
    // taken its bit, and it remembers having seen the wake.
    &&& (p.reg_pc is InvokeFresh || p.reg_pc is DropBitFresh) ==> !(p.wake_pc is TakeBit)
        && p.reg_saw_waking
    // On the wake-in-flight path the fresh continuation is invoked before the
    // bit is released.
    &&& p.reg_pc is DropBitFresh ==> p.invoked.contains(Some(p.fresh))
    // The owning path is taken exactly when no wake was in flight at the
    // registrant's fetch-or.
    &&& (p.reg_pc is WriteSlot || p.reg_pc is ReleaseBit || p.reg_pc is InvokeStored
        || p.reg_pc is SwapIdle) ==> !p.reg_saw_waking
    // On the owning path the slot holds the fresh continuation from the write
    // on.
    &&& (p.reg_pc is ReleaseBit || p.reg_pc is InvokeStored || p.reg_pc is SwapIdle)
        ==> p.stored == Some(p.fresh)
    // The taken-over invocation runs with the wake handed off and WAKING
    // still set, until the swap settles it.
    &&& (p.reg_pc is InvokeStored || p.reg_pc is SwapIdle) ==> k && p.wake_pc is Done
        && p.wake_handed_off
    // By the swap, the taken-over invocation has run.
    &&& p.reg_pc is SwapIdle ==> p.invoked.contains(Some(p.fresh))
    // A finished registrant either invoked the fresh continuation itself or
    // left it stored.
    &&& p.reg_pc is Done && p.reg_saw_waking ==> p.invoked.contains(Some(p.fresh))
    &&& p.reg_pc is Done && !p.reg_saw_waking ==> p.stored == Some(p.fresh)
    // A wake that began after the register finds the fresh continuation: in
    // the slot it is about to read, or already invoked.
    &&& p.wake_after_register && p.wake_pc is Invoke ==> p.stored == Some(p.fresh)
        || p.invoked.contains(Some(p.fresh))
    // ... and once it has read the slot, the fresh continuation was invoked.
    &&& p.wake_after_register && (p.wake_pc is DropBit || p.wake_pc is Done)
        && !p.wake_handed_off ==> p.invoked.contains(Some(p.fresh))
}

/// Pushing onto the invocation log keeps everything it contained and adds the
/// pushed entry.
proof fn lemma_log_push(s: Seq<Option<u64>>, v: Option<u64>)
    ensures
        s.push(v).contains(v),
        forall|x: Option<u64>| s.contains(x) ==> #[trigger] s.push(v).contains(x),
{
    assert(s.push(v)[s.len() as int] == v);
    assert forall|x: Option<u64>| s.contains(x) implies #[trigger] s.push(v).contains(x) by {
        let i = choose|i: int| 0 <= i < s.len() && s[i] == x;
        assert(s.push(v)[i] == x);
    }
}

/// The effect of each atomic bit operation on a two-bit state byte.
proof fn lemma_state_bits(s: u8)
    requires
        s & !FULL == 0,
    ensures
        (s | REGISTERING) & !FULL == 0,
        (s | REGISTERING) & REGISTERING != 0,
        ((s | REGISTERING) & WAKING != 0) == (s & WAKING != 0),
        (s | WAKING) & !FULL == 0,
        (s | WAKING) & WAKING != 0,
        ((s | WAKING) & REGISTERING != 0) == (s & REGISTERING != 0),
        (s & !REGISTERING) & !FULL == 0,
        (s & !REGISTERING) & REGISTERING == 0,
        ((s & !REGISTERING) & WAKING != 0) == (s & WAKING != 0),
        (s & !WAKING) & !FULL == 0,
        (s & !WAKING) & WAKING == 0,
        ((s & !WAKING) & REGISTERING != 0) == (s & REGISTERING != 0),
        (s == WAITING) == (s & REGISTERING == 0 && s & WAKING == 0),
        s & REGISTERING == 0 ==> (s | REGISTERING) & !REGISTERING == s,
        s & WAKING == 0 ==> (s | WAKING) & !WAKING == s,
        WAITING & !FULL == 0,
        WAITING & REGISTERING == 0,
        WAITING & WAKING == 0,
{
    assert(s & !3u8 == 0 ==> {
        &&& (s | 2) & !3u8 == 0
        &&& (s | 2) & 2 != 0
        &&& ((s | 2) & 1 != 0) == (s & 1 != 0)
        &&& (s | 1) & !3u8 == 0
        &&& (s | 1) & 1 != 0
        &&& ((s | 1) & 2 != 0) == (s & 2 != 0)
        &&& (s & !2u8) & !3u8 == 0
        &&& (s & !2u8) & 2 == 0
        &&& ((s & !2u8) & 1 != 0) == (s & 1 != 0)
        &&& (s & !1u8) & !3u8 == 0
        &&& (s & !1u8) & 1 == 0
        &&& ((s & !1u8) & 2 != 0) == (s & 2 != 0)
        &&& (s & 2 == 0 ==> (s | 2) & !2u8 == s)
        &&& (s & 1 == 0 ==> (s | 1) & !1u8 == s)
        &&& (s == 0) == (s & 2 == 0 && s & 1 == 0)
        &&& 0u8 & !3u8 == 0
        &&& 0u8 & 2u8 == 0
        &&& 0u8 & 1u8 == 0
    }) by (bit_vector);
}

/// A settled start satisfies the invariant.
pub proof fn lemma_inv_init(p: Handoff)
    requires
        initial(p),
    ensures
        inv(p),
{
    lemma_waiting_state();
    lemma_state_bits(p.state);
}

/// Every atomic step by either party preserves the invariant.
pub proof fn lemma_inv_step(p: Handoff, registrant_moves: bool)
    requires
        inv(p),
    ensures
        inv(step(p, registrant_moves)),
{
    lemma_state_bits(p.state);
    if registrant_moves {
        match p.reg_pc {
            RegPc::InvokeFresh => lemma_log_push(p.invoked, Some(p.fresh)),
            RegPc::InvokeStored => lemma_log_push(p.invoked, p.stored),
            _ => {},
        }
    } else {
        match p.wake_pc {
            WakePc::Invoke => lemma_log_push(p.invoked, p.stored),
            _ => {},
        }
    }
}

/// The invariant holds after any schedule of steps from a settled start.
pub proof fn lemma_run_inv(p: Handoff, sched: Seq<bool>)
    requires
        inv(p),
    ensures
        inv(run(p, sched)),
    decreases sched.len(),
{
    if sched.len() > 0 {
        lemma_inv_step(p, sched.first());
        lemma_run_inv(step(p, sched.first()), sched.drop_first());
    }
}

/// The registrant run to completion undisturbed: `Done` absorbs, and no path
/// has more than five atomic steps.
pub open spec fn reg_run(p: Handoff) -> Handoff {
    reg_step(reg_step(reg_step(reg_step(reg_step(p)))))
}

/// The waker run to completion undisturbed.
pub open spec fn wake_run(p: Handoff) -> Handoff {
    wake_step(wake_step(wake_step(p)))
}

/// Coherence with the sequential contract: a register that no wake crosses
/// mid-run has exactly the net effect [`crate::notifier::spec_register`]
/// gives `Notifier::register`, with the immediate invocation logged when a
/// wake was already in flight.
pub proof fn lemma_register_alone(p: Handoff)
    requires
        p.reg_pc is TakeBit,
        p.state & REGISTERING == 0,
        p.state & !FULL == 0,
    ensures
        reg_run(p).reg_pc is Done,
        ({
            let q = reg_run(p);
            let n = crate::notifier::NotifierState { state: p.state, waker: p.stored };
            let (after, woken) = crate::notifier::spec_register(n, p.fresh);
            &&& q.state == after.state
            &&& q.stored == after.waker
            &&& (woken is Some ==> q.invoked == p.invoked.push(woken))
            &&& (woken is None ==> q.invoked == p.invoked)
        }),
{
    lemma_state_bits(p.state);
    lemma_state_bits(p.state | REGISTERING);
}

/// Coherence with the sequential contract: a wake that no register crosses
/// mid-run has exactly the net effect [`crate::notifier::spec_wake`] gives
/// `Notifier::wake_by_ref`, with the invocation of the stored continuation
/// logged when the waker owned the slot.
pub proof fn lemma_wake_alone(p: Handoff)
    requires
        p.wake_pc is TakeBit,
        p.state & WAKING == 0,
        p.state & !FULL == 0,
    ensures
        wake_run(p).wake_pc is Done,
        ({
            let q = wake_run(p);
            let n = crate::notifier::NotifierState { state: p.state, waker: p.stored };
            let (after, woken) = crate::notifier::spec_wake(n);
            &&& q.state == after.state
            &&& q.stored == after.waker
            &&& (p.state & REGISTERING == 0 ==> q.invoked == p.invoked.push(woken))
            &&& (p.state & REGISTERING != 0 ==> q.invoked == p.invoked)
        }),
{
    lemma_state_bits(p.state);
    lemma_state_bits(p.state | WAKING);
}

/// Slot exclusion: in no reachable interleaving does the registrant write the
/// continuation slot while the waker reads it. This is what taking
/// `REGISTERING` before the write and `WAKING` before the read buys.
pub proof fn lemma_slot_exclusive(p: Handoff)
    requires
        inv(p),
    ensures
        !(p.reg_pc is WriteSlot && wake_owns_slot(p)),
        !(p.reg_pc is InvokeStored && wake_owns_slot(p)),
{
}

/// No lost wake: every complete interleaving settles the state byte back to
/// `WAITING`; and whether the wake was already begun when the register took
/// its bit, or took its own bit afterwards, the run ends with a continuation
/// for the registering task invoked — by the waker itself, or by the
/// registrant on its behalf.
pub proof fn lemma_no_lost_wake(p: Handoff, sched: Seq<bool>)
    requires
        initial(p),
        run(p, sched).reg_pc is Done,
        run(p, sched).wake_pc is Done,
    ensures
        run(p, sched).state == WAITING,
        run(p, sched).wake_after_register ==> run(p, sched).invoked.contains(
            Some(run(p, sched).fresh),
        ),
        run(p, sched).reg_saw_waking ==> run(p, sched).invoked.contains(
            Some(run(p, sched).fresh),
        ),
{
    lemma_inv_init(p);
    lemma_run_inv(p, sched);
    lemma_state_bits(run(p, sched).state);
}

} // verus!
