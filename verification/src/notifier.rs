//! Single-slot wake coordination between one registrant and one waker.
//!
//! The notifier owns one stored continuation handle and a state byte with two
//! relevant bits, `REGISTERING` and `WAKING` (`WAITING` is the absence of
//! both). The discipline is asymmetric: at most one party registers at a time
//! and at most one party wakes at a time, but a register and a wake may cross.
//! A register first takes the `REGISTERING` bit; if it finds a wake already in
//! flight it resumes the fresh handle itself and leaves the slot alone.
//! Otherwise it owns the slot, installs the handle, and on releasing the bit
//! checks whether a wake arrived meanwhile, invoking on the waker's behalf if
//! so. A wake first takes the `WAKING` bit; if it finds a registrant mid-write
//! it does nothing and leaves the bit set for the registrant's release check.
//!
//! A continuation handle is a plain task identifier; "invoking" one means
//! returning it to the driver, which resumes the task it names. `None` stands
//! for the initial no-op continuation: invoking it resumes nothing.

use vstd::prelude::*;

verus! {

/// State byte value: no party is touching the continuation slot.
pub const WAITING: u8 = 0b00;

/// State bit: a wake is in flight.
pub const WAKING: u8 = 0b01;

/// State bit: a registrant is installing a continuation.
pub const REGISTERING: u8 = 0b10;

/// State byte value: a register and a wake have crossed.
pub const FULL: u8 = 0b11;

/// The notifier's state as contracts see it: the state byte and the stored
/// continuation handle (`None` for the no-op continuation).
pub struct NotifierState {
    /// The state byte; only the `REGISTERING` and `WAKING` bits are ever set.
    pub state: u8,
    /// The stored continuation handle.
    pub waker: Option<u64>,
}

/// What a register does: the notifier afterwards, and the handle to resume now
/// (`None` when nothing is resumed).
///
/// With a wake in flight, the fresh handle is resumed at once and the slot is
/// left alone; otherwise the fresh handle replaces the stored one and nothing
/// is resumed.
pub open spec fn spec_register(n: NotifierState, w: u64) -> (NotifierState, Option<u64>) {
    if n.state & WAKING != 0 {
        (n, Some(w))
    } else {
        (NotifierState { state: n.state, waker: Some(w) }, None)
    }
}

/// What a wake does: the notifier afterwards, and the handle to resume now.
///
/// With no registrant mid-write, the stored continuation is resumed by
/// reference and stays stored; otherwise nothing is resumed and the `WAKING`
/// bit is left set for the registrant's release check to act on.
pub open spec fn spec_wake(n: NotifierState) -> (NotifierState, Option<u64>) {
    if n.state & REGISTERING == 0 {
        (n, n.waker)
    } else {
        (NotifierState { state: n.state | WAKING, waker: n.waker }, None)
    }
}

/// Single-slot coordination of one parking party against one nudging party.
pub struct Notifier {
    state: u8,
    waker: Option<u64>,
}

impl View for Notifier {
    type V = NotifierState;

    closed spec fn view(&self) -> NotifierState {
        NotifierState { state: self.state, waker: self.waker }
    }
}

impl Notifier {
    /// Only the two protocol bits are ever set in the state byte.
    pub open spec fn wf(&self) -> bool {
        self@.state & !FULL == 0
    }

    /// A fresh notifier: state `WAITING`, holding the no-op continuation.
    pub fn new() -> (n: Notifier)
        ensures
            n@.state == WAITING,
            n@.waker is None,
            n.wf(),
    {
        let n = Notifier { state: WAITING, waker: None };
        proof {
            assert(WAITING & !FULL == 0) by (bit_vector);
        }
        n
    }

    /// Installs or replaces the stored continuation with `w`, so that a wake
    /// already begun, or begun at any time before another register, resumes a
    /// continuation for the registering task.
    ///
    /// At most one party registers at a time, so entry with `REGISTERING` set
    /// is excluded. Returns the handle to resume now: `Some(w)` itself when a
    /// wake was already in flight, `None` otherwise.
    pub fn register(&mut self, w: u64) -> (woken: Option<u64>)
        requires
            old(self).wf(),
            old(self)@.state & REGISTERING == 0,
        ensures
            final(self).wf(),
            (final(self)@, woken) == spec_register(old(self)@, w),
    {
        // Models the atomic fetch-or taking the REGISTERING bit.
        let prior = self.state;
        self.state = prior | REGISTERING;
        proof {
            let s = prior;
            assert(s & !3u8 == 0 && s & 2 == 0 ==> {
                &&& (s | 2) & !2u8 == s
                &&& (s & 1 == 0 ==> (s | 2) & 1 == 0)
                &&& (s & 1 != 0 ==> (s | 2) & 1 != 0)
            }) by (bit_vector);
        }
        if prior & WAKING != 0 {
            // A wake is in flight and owns the slot: resume the fresh handle
            // directly and release the REGISTERING bit.
            self.state = self.state & !REGISTERING;
            Some(w)
        } else {
            // The registrant owns the slot: install the handle, replacing it
            // only if it does not already resume the same task.
            let replace = match &self.waker {
                Some(cur) => *cur != w,
                None => true,
            };
            if replace {
                self.waker = Some(w);
            }
            // Models the atomic fetch-and releasing the REGISTERING bit; its
            // prior value reveals whether a wake arrived during the install.
            let released = self.state;
            self.state = released & !REGISTERING;
            if released & WAKING != 0 {
                // The crossing wake handed its invocation to us: resume the
                // just-stored continuation and swap the state back to WAITING
                // so a later wake observes a settled slot.
                let woken = match &self.waker {
                    Some(cur) => Some(*cur),
                    None => None,
                };
                self.state = WAITING;
                woken
            } else {
                None
            }
        }
    }

    /// Arranges for the stored continuation to be resumed: returns it when the
    /// waker owns the slot, and otherwise leaves the `WAKING` bit set so the
    /// mid-write registrant resumes its own fresh continuation.
    ///
    /// At most one party wakes at a time, so entry with `WAKING` set is
    /// excluded. The stored continuation is resumed by reference: it stays
    /// stored, and a repeated wake resumes it again (a spurious wake the
    /// scheduler absorbs).
    pub fn wake_by_ref(&mut self) -> (woken: Option<u64>)
        requires
            old(self).wf(),
            old(self)@.state & WAKING == 0,
        ensures
            final(self).wf(),
            (final(self)@, woken) == spec_wake(old(self)@),
    {
        // Models the atomic fetch-or taking the WAKING bit.
        let prior = self.state;
        self.state = prior | WAKING;
        proof {
            let s = prior;
            assert(s & !3u8 == 0 && s & 1 == 0 ==> {
                &&& (s | 1) & !1u8 == s
                &&& (s | 1) & !3u8 == 0
                &&& (s & 2 == 0 ==> (s | 1) & 2 == 0)
                &&& (s & 2 != 0 ==> (s | 1) & 2 != 0)
            }) by (bit_vector);
        }
        if prior & REGISTERING == 0 {
            // The waker owns the slot: resume the stored continuation by
            // reference and release the WAKING bit.
            let woken = match &self.waker {
                Some(cur) => Some(*cur),
                None => None,
            };
            self.state = self.state & !WAKING;
            woken
        } else {
            // A registrant is mid-write: leave WAKING set; its release check
            // will resume the freshly installed continuation on our behalf.
            None
        }
    }
}

/// In the settled `WAITING` state neither protocol bit is set.
pub proof fn lemma_waiting_state()
    ensures
        WAITING & REGISTERING == 0,
        WAITING & WAKING == 0,
        WAITING & !FULL == 0,
{
    assert(0u8 & 2u8 == 0 && 0u8 & 1u8 == 0 && 0u8 & !3u8 == 0) by (bit_vector);
}

/// Notifier idempotence: repeated wakes without an intervening register leave
/// the notifier unchanged and hand the scheduler the same continuation each
/// time; repeated registers without an intervening wake replace the stored
/// continuation with the latest one and resume neither, whenever no wake is in
/// flight.
pub proof fn lemma_notifier_idempotence(n: NotifierState, w1: u64, w2: u64)
    requires
        n.state & REGISTERING == 0,
    ensures
        spec_wake(n).0 == n,
        spec_wake(spec_wake(n).0) == spec_wake(n),
        n.state & WAKING == 0 ==> {
            let once = spec_register(n, w1);
            let twice = spec_register(once.0, w2);
            &&& once.1 is None
            &&& twice.1 is None
            &&& twice.0.waker == Some(w2)
            &&& twice.0.state == n.state
        },
{
}

} // verus!
