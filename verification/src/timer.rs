//! Single-shot timer queue.
//!
//! Extensions ask the host for deadlines that re-invoke them after a delay.
//! A deadline fires at most once: the entry is removed from the queue before
//! the callback it names runs, so the callback may safely arm a fresh one.
//! There is no cancellation; an extension that no longer wants a pending
//! deadline makes the fired callback inert by checking its own state.

use vstd::prelude::*;
use crate::TimerArm;

verus! {

/// The pending single-shot deadlines, in arming order.
pub struct TimerQueue {
    entries: Vec<TimerArm>,
}

impl TimerQueue {
    /// The pending entries, oldest first.
    pub closed spec fn view(&self) -> Seq<TimerArm> {
        self.entries@
    }

    /// An empty queue.
    pub fn new() -> (r: TimerQueue)
        ensures
            r@ == Seq::<TimerArm>::empty(),
    {
        let q = TimerQueue { entries: Vec::new() };
        proof {
            assert(q@ =~= Seq::<TimerArm>::empty());
        }
        q
    }

    /// Schedule a callback: at `deadline`, the extension and timer the
    /// identifiers name are to be invoked once.
    pub fn arm(&mut self, deadline: u64, extension_id: u64, timer_id: u64)
        ensures
            final(self)@ == old(self)@.push(TimerArm { deadline, extension_id, timer_id }),
    {
        self.entries.push(TimerArm { deadline, extension_id, timer_id });
    }

    /// Remove and return the oldest entry due at `now`, if any. The entry
    /// leaves the queue before its callback can run, so it fires exactly
    /// once; `None` exactly when nothing is due.
    pub fn fire_due(&mut self, now: u64) -> (r: Option<TimerArm>)
        ensures
            match r {
                Some(e) => exists|i: int|
                    {
                        &&& 0 <= i < old(self)@.len()
                        &&& old(self)@[i] == e
                        &&& e.deadline <= now
                        &&& (forall|j: int| 0 <= j < i ==> old(self)@[j].deadline > now)
                        &&& final(self)@ == old(self)@.remove(i)
                    },
                None => {
                    &&& final(self)@ == old(self)@
                    &&& forall|j: int| 0 <= j < old(self)@.len() ==> old(self)@[j].deadline > now
                },
            },
    {
        let n = self.entries.len();
        let mut i: usize = 0;
        while i < n
            invariant
                i <= n,
                n == self.entries@.len(),
                self.entries@ == old(self)@,
                forall|j: int| 0 <= j < i ==> self.entries@[j].deadline > now,
            decreases n - i,
        {
            if self.entries[i].deadline <= now {
                let e = self.entries.remove(i);
                return Some(e);
            }
            i = i + 1;
        }
        None
    }

    /// Number of pending entries.
    pub fn len(&self) -> (r: usize)
        ensures
            r == self@.len(),
    {
        self.entries.len()
    }
}

} // verus!
