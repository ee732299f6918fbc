//! The escape-time iteration counter.
//!
//! One orbit is evaluated by repeatedly applying an update rule to a complex
//! iterate and watching for divergence. The arithmetic on the iterate is
//! floating point and happens outside the library; what the library verifies
//! is the counting discipline around it: the loop stops as soon as the orbit
//! escapes or the iteration cap is reached, and the reported count never
//! exceeds the cap.
//!
//! A driver owns the iterate. Each round it tells the counter whether the
//! current iterate's squared magnitude has reached the escape threshold; the
//! counter answers, through `is_done`, whether another update step is wanted.

use vstd::prelude::*;

verus! {

/// The decision state of one orbit evaluation: how many update steps the
/// orbit has survived, the iteration cap, and whether evaluation is over.
pub struct EscapeCounter {
    count: u32,
    limit: u32,
    finished: bool,
}

impl EscapeCounter {
    /// Steps survived so far; this is the raw count once finished.
    pub closed spec fn count_spec(&self) -> u32 {
        self.count
    }

    /// The iteration cap the counter was created with.
    pub closed spec fn limit_spec(&self) -> u32 {
        self.limit
    }

    /// Whether the evaluation has stopped (escape seen, or cap reached).
    pub closed spec fn finished_spec(&self) -> bool {
        self.finished
    }

    /// The count never exceeds the cap.
    pub closed spec fn wf(&self) -> bool {
        self.count <= self.limit
    }

    /// A fresh counter for one orbit under the given iteration cap.
    pub fn new(iter_limit: u32) -> (r: Self)
        ensures
            r.wf(),
            r.count_spec() == 0,
            r.limit_spec() == iter_limit,
            !r.finished_spec(),
    {
        EscapeCounter { count: 0, limit: iter_limit, finished: false }
    }

    /// Record one observation of the current iterate: `escaped` says whether
    /// its squared magnitude has reached the escape threshold.
    ///
    /// An escaped orbit stops at its current count. Otherwise one more step
    /// is counted, unless the cap leaves no room for it, in which case the
    /// evaluation stops at the cap. After a call that leaves the counter
    /// unfinished, the driver applies the update rule once and reports again.
    pub fn record(&mut self, escaped: bool)
        requires
            old(self).wf(),
            !old(self).finished_spec(),
        ensures
            final(self).wf(),
            final(self).limit_spec() == old(self).limit_spec(),
            escaped ==> {
                &&& final(self).finished_spec()
                &&& final(self).count_spec() == old(self).count_spec()
            },
            !escaped && old(self).count_spec() < old(self).limit_spec() ==> {
                &&& final(self).count_spec() == old(self).count_spec() + 1
                &&& (final(self).finished_spec() <==> final(self).count_spec()
                    == final(self).limit_spec())
            },
            !escaped && old(self).count_spec() == old(self).limit_spec() ==> {
                &&& final(self).finished_spec()
                &&& final(self).count_spec() == old(self).count_spec()
            },
    {
        if escaped {
            self.finished = true;
        } else if self.count < self.limit {
            self.count = self.count + 1;
            if self.count == self.limit {
                self.finished = true;
            }
        } else {
            self.finished = true;
        }
    }

    /// Whether the driver should stop: no further update step is wanted.
    pub fn is_done(&self) -> (r: bool)
        ensures
            r == self.finished_spec(),
    {
        self.finished
    }

    /// The number of steps survived. Once the counter is finished this is
    /// the orbit's raw iteration count, and it never exceeds the cap.
    pub fn count(&self) -> (r: u32)
        ensures
            r == self.count_spec(),
            self.wf() ==> r <= self.limit_spec(),
    {
        self.count
    }
}

} // verus!
