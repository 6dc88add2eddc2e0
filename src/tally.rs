//! The round tally: how many workers have sent Done since the last reset.
//!
//! The caller keeps the tally behind one lock and calls each method while
//! holding it, so each method is one critical section.
use vstd::prelude::*;

verus! {

/// A counter in `[0, size]` of the Done records of the current round.
pub struct RoundTally {
    count: u64,
    size: u64,
}

impl RoundTally {
    /// Done records counted since the last reset.
    pub closed spec fn count(&self) -> u64 {
        self.count
    }

    /// The number of workers N.
    pub closed spec fn size(&self) -> u64 {
        self.size
    }

    /// The tally never exceeds the number of workers.
    pub open spec fn wf(&self) -> bool {
        self.count() <= self.size()
    }

    /// Whether every worker has sent Done since the last reset.
    pub open spec fn is_complete(&self) -> bool {
        self.count() == self.size()
    }

    /// What one call of `try_reset_if_complete` does: it resets exactly when
    /// the tally is complete, to 0, and otherwise changes nothing.
    pub open spec fn reset_outcome(before: RoundTally, after: RoundTally, r: bool) -> bool {
        &&& after.wf()
        &&& after.size() == before.size()
        &&& r == before.is_complete()
        &&& r ==> after.count() == 0
        &&& !r ==> after.count() == before.count()
    }

    /// What one call of `increment` does: it counts one more Done exactly
    /// when the tally is below the number of workers, and otherwise changes
    /// nothing.
    pub open spec fn increment_outcome(before: RoundTally, after: RoundTally, r: bool) -> bool {
        &&& after.wf()
        &&& after.size() == before.size()
        &&& r == (before.count() < before.size())
        &&& r ==> after.count() == before.count() + 1
        &&& !r ==> after.count() == before.count()
    }

    /// A tally for `size` workers, at 0.
    pub fn new(size: u64) -> (r: RoundTally)
        ensures
            r.wf(),
            r.count() == 0,
            r.size() == size,
    {
        RoundTally { count: 0, size }
    }

    /// Done records counted since the last reset.
    pub fn get_count(&self) -> (r: u64)
        ensures
            r == self.count(),
    {
        self.count
    }

    /// The number of workers.
    pub fn get_size(&self) -> (r: u64)
        ensures
            r == self.size(),
    {
        self.size
    }

    /// Counts one Done record. A tally that is already complete is left as
    /// it is and `false` is returned: a worker cannot be counted twice in
    /// one round.
    pub fn increment(&mut self) -> (r: bool)
        requires
            old(self).wf(),
        ensures
            RoundTally::increment_outcome(*old(self), *final(self), r),
    {
        if self.count < self.size {
            self.count = self.count + 1;
            true
        } else {
            false
        }
    }

    /// Checks whether the tally is complete and, if it is, sets it to 0, in
    /// one step. Returns whether it reset.
    pub fn try_reset_if_complete(&mut self) -> (r: bool)
        requires
            old(self).wf(),
        ensures
            RoundTally::reset_outcome(*old(self), *final(self), r),
    {
        if self.count == self.size {
            self.count = 0;
            true
        } else {
            false
        }
    }
}

/// A reset happens exactly when the tally stands at the number of workers,
/// and the tally changes on a check only then, to 0. Check and reset are one
/// step, so no Done can be counted between them and lost.
pub proof fn lemma_reset_only_from_complete(
    before: RoundTally,
    after: RoundTally,
    r: bool,
)
    requires
        before.wf(),
        RoundTally::reset_outcome(before, after, r),
    ensures
        after.count() != before.count() ==> before.count() == before.size() && after.count() == 0,
        r <==> before.count() == before.size(),
{
}

/// How many of `rs` are `true`.
pub open spec fn accepted(rs: Seq<bool>) -> nat
    decreases rs.len(),
{
    if rs.len() == 0 {
        0
    } else {
        accepted(rs.drop_last()) + if rs.last() { 1nat } else { 0nat }
    }
}

/// Over a run of `increment` calls, from tally `ts[0]` through `ts[i]` to
/// `ts[i + 1]` with result `rs[i]`, the count rises by exactly the number of
/// accepted Done records, and that number is the smaller of the number of
/// calls and the room left below N: no Done is lost, and none goes past N.
pub proof fn lemma_increments_add_up(ts: Seq<RoundTally>, rs: Seq<bool>)
    requires
        ts.len() == rs.len() + 1,
        ts[0].wf(),
        forall|i: int| 0 <= i < rs.len() ==> RoundTally::increment_outcome(#[trigger] ts[i], ts[i + 1], rs[i]),
    ensures
        ts.last().size() == ts[0].size(),
        ts.last().count() == ts[0].count() + accepted(rs),
        accepted(rs) == if rs.len() <= ts[0].size() - ts[0].count() {
            rs.len() as int
        } else {
            ts[0].size() - ts[0].count()
        },
    decreases rs.len(),
{
    if rs.len() > 0 {
        let n = rs.len() - 1;
        let ts0 = ts.drop_last();
        let rs0 = rs.drop_last();
        assert forall|i: int| 0 <= i < rs0.len() implies RoundTally::increment_outcome(#[trigger] ts0[i], ts0[i + 1], rs0[i]) by {
            assert(ts0[i] == ts[i] && ts0[i + 1] == ts[i + 1] && rs0[i] == rs[i]);
        }
        lemma_increments_add_up(ts0, rs0);
        assert(RoundTally::increment_outcome(ts[n], ts[n + 1], rs[n]));
        assert(ts0.last() == ts[n]);
    }
}

} // verus!
