//! Per-thread record of when dispatched tasks ran.

use std::collections::VecDeque;
use vstd::prelude::*;

verus! {

/// A record of when a single task ran: the task's source location (an
/// identifier) and its start and end times (clock ticks).
#[derive(Copy, Clone, Debug, PartialEq, Eq)]
pub struct TaskTiming {
    pub location: u64,
    pub start: u64,
    pub end: Option<u64>,
}

/// The timings after a task from `location` starts at `now`: consecutive
/// starts from the same location share one record.
pub open spec fn started(v: Seq<TaskTiming>, location: u64, now: u64) -> Seq<TaskTiming> {
    if v.len() > 0 && v.last().location == location {
        v
    } else {
        v.push(TaskTiming { location, start: now, end: None })
    }
}

/// The timings after the latest task ends at `now`.
pub open spec fn ended(v: Seq<TaskTiming>, now: u64) -> Seq<TaskTiming> {
    if v.len() == 0 {
        v
    } else {
        v.update(v.len() - 1, TaskTiming { end: Some(now), ..v.last() })
    }
}

/// The timings of one thread, oldest first.
pub struct ThreadTimingState {
    timings: VecDeque<TaskTiming>,
}

impl ThreadTimingState {
    /// The recorded timings.
    pub closed spec fn view(self) -> Seq<TaskTiming> {
        self.timings@
    }

    /// No timing recorded.
    pub fn new() -> (s: Self)
        ensures
            s.view().len() == 0,
    {
        ThreadTimingState { timings: VecDeque::with_capacity(64) }
    }

    /// A task from `location` starts at `now`.  Consecutive starts from the
    /// same location share one record.
    pub fn record_start(&mut self, location: u64, now: u64)
        ensures
            final(self).view() == started(old(self).view(), location, now),
    {
        let n = self.timings.len();
        if n > 0 && self.timings[n - 1].location == location {
            return;
        }
        self.timings.push_back(TaskTiming { location, start: now, end: None });
    }

    /// The latest task ended at `now`.
    pub fn record_end(&mut self, now: u64)
        ensures
            final(self).view() == ended(old(self).view(), now),
    {
        if let Some(last) = self.timings.pop_back() {
            self.timings.push_back(TaskTiming { location: last.location, start: last.start, end: Some(now) });
        }
        proof {
            assert(self.timings@ =~= ended(old(self).timings@, now));
        }
    }

    /// A copy of the recorded timings, oldest first.
    pub fn timings(&self) -> (r: Vec<TaskTiming>)
        ensures
            r@ == self.view(),
    {
        let n = self.timings.len();
        let mut r: Vec<TaskTiming> = Vec::with_capacity(n);
        let mut i: usize = 0;
        while i < n
            invariant
                n == self.timings@.len(),
                i <= n,
                r@ == self.timings@.subrange(0, i as int),
            decreases n - i,
        {
            r.push(self.timings[i]);
            i += 1;
            proof {
                assert(r@ =~= self.timings@.subrange(0, i as int));
            }
        }
        proof {
            assert(r@ =~= self.timings@);
        }
        r
    }
}

/// A task that starts again from the same location, before anything else
/// starts, keeps its first record; every start leaves a record of its
/// location last, and an end stamps only that last record.
pub proof fn lemma_timings_start_and_end(v: Seq<TaskTiming>, location: u64, t1: u64, t2: u64)
    ensures
        started(started(v, location, t1), location, t2) == started(v, location, t1),
        started(v, location, t1).last().location == location,
        ended(started(v, location, t1), t2).len() == started(v, location, t1).len(),
        ended(started(v, location, t1), t2).last().end == Some(t2),
        forall|i: int| 0 <= i < started(v, location, t1).len() - 1
            ==> #[trigger] ended(started(v, location, t1), t2)[i] == started(v, location, t1)[i],
{
}

} // verus!
