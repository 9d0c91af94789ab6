//! The bounded dispatcher, modelled as a state machine. A batch holds the
//! units not yet started, a count of units in flight, and a count of finished
//! units (success and failure alike — the dispatcher is best-effort and keeps
//! no per-unit verdict). The admission rule is the sole backpressure
//! mechanism: a unit starts only while fewer than `limit` units are in
//! flight. Completion order is unconstrained; the batch is complete exactly
//! when nothing is pending and nothing is in flight, which is the full
//! join/barrier the dispatch call waits for.
//!
//! The shell that owns the browser session drives this machine: it calls
//! `try_start` until admission is refused, performs each admitted unit's
//! navigate-and-capture concurrently, and reports each completion through
//! `finish_one`.

use vstd::prelude::*;
use crate::target::WorkUnit;

verus! {

/// The state of one dispatched batch.
pub struct Batch {
    /// Units not yet started, in no promised order.
    pub pending: Vec<WorkUnit>,
    /// Units started and not yet finished.
    pub active: usize,
    /// Units finished, whether they captured their screenshot or failed.
    pub done: usize,
    /// The admission bound: at most this many units in flight at once.
    pub limit: usize,
}

impl Batch {
    /// Well-formedness: the limit is positive, admission is respected, and
    /// the unit counts cannot overflow.
    pub open spec fn wf(self) -> bool {
        &&& 1 <= self.limit
        &&& self.active <= self.limit
        &&& self.pending@.len() + self.active + self.done <= usize::MAX
    }

    /// How many units the batch was planned with.
    pub open spec fn total(self) -> int {
        self.pending@.len() + self.active + self.done
    }

    /// The full join/barrier: no unit pending, no unit in flight.
    pub open spec fn spec_complete(self) -> bool {
        self.pending@.len() == 0 && self.active == 0
    }

    /// A fresh batch over `units`: nothing started, nothing finished. A batch
    /// over no units is complete from the start — nothing is ever scheduled.
    pub fn new(units: Vec<WorkUnit>, limit: usize) -> (b: Batch)
        requires
            1 <= limit,
        ensures
            b.wf(),
            b.pending@ == units@,
            b.active == 0,
            b.done == 0,
            b.limit == limit,
            units@.len() == 0 ==> b.spec_complete(),
    {
        // The exec length is a usize, which bounds the view's length for wf.
        let n = units.len();
        proof {
            assert(n == units@.len());
        }
        Batch { pending: units, active: 0, done: 0, limit }
    }

    /// Admission: starts one pending unit if a slot is free, handing it out
    /// to be run; refuses when the limit is reached or nothing is pending.
    /// Admission never raises `active` beyond `limit`.
    pub fn try_start(&mut self) -> (u: Option<WorkUnit>)
        requires
            old(self).wf(),
        ensures
            final(self).wf(),
            final(self).limit == old(self).limit,
            final(self).done == old(self).done,
            final(self).total() == old(self).total(),
            match u {
                Option::Some(unit) => {
                    &&& old(self).active < old(self).limit
                    &&& old(self).pending@.len() > 0
                    &&& unit == old(self).pending@.last()
                    &&& final(self).pending@ == old(self).pending@.drop_last()
                    &&& final(self).active == old(self).active + 1
                },
                Option::None => {
                    &&& old(self).active >= old(self).limit || old(self).pending@.len() == 0
                    &&& final(self).pending@ == old(self).pending@
                    &&& final(self).active == old(self).active
                },
            },
    {
        if self.active < self.limit {
            match self.pending.pop() {
                Option::Some(unit) => {
                    self.active = self.active + 1;
                    proof {
                        assert(self.pending@ =~= old(self).pending@.drop_last());
                    }
                    Option::Some(unit)
                },
                Option::None => Option::None,
            }
        } else {
            Option::None
        }
    }

    /// One in-flight unit finished, with or without a screenshot; its slot
    /// frees and the unit counts as done. The batch keeps no verdict.
    pub fn finish_one(&mut self)
        requires
            old(self).wf(),
            old(self).active > 0,
        ensures
            final(self).wf(),
            final(self).limit == old(self).limit,
            final(self).pending@ == old(self).pending@,
            final(self).active == old(self).active - 1,
            final(self).done == old(self).done + 1,
            final(self).total() == old(self).total(),
    {
        self.active = self.active - 1;
        self.done = self.done + 1;
    }

    /// Whether the barrier has been reached: every unit of the batch ran to
    /// its end, nothing is pending and nothing is in flight.
    pub fn is_complete(&self) -> (r: bool)
        ensures
            r == self.spec_complete(),
    {
        self.pending.len() == 0 && self.active == 0
    }
}

/// Law: a well-formed batch never has more units in flight than its limit
/// admits — dispatching under limit `L` never reaches `L + 1` concurrent
/// units, in any state the batch's operations can produce.
pub proof fn lemma_active_within_limit(b: Batch)
    requires
        b.wf(),
    ensures
        b.active <= b.limit,
{
}

/// Law: the batch is complete exactly when every planned unit has finished —
/// the join releases neither early (a unit still pending or in flight) nor
/// late.
pub proof fn lemma_complete_is_all_done(b: Batch)
    requires
        b.wf(),
    ensures
        b.spec_complete() <==> b.done == b.total(),
{
}

} // verus!
