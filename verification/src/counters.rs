//! The counter store: four named, monotonically non-decreasing 64-bit
//! counters of subtransaction lifecycle events.
//!
//! In a deployed server instance the four counters live in memory shared by
//! every backend process and are updated with sequentially consistent atomic
//! read-modify-write operations; that shared-region plumbing belongs to the
//! host binding. This type is the store itself: what each counter holds and
//! how an increment changes it.

use vstd::prelude::*;

verus! {

/// Which of the four counters an operation addresses.
#[derive(Clone, Copy, PartialEq, Eq, Structural, Debug)]
pub enum CounterName {
    Start,
    Commit,
    Abort,
    Overflow,
}

/// Mathematical view of the counter store: one unbounded integer per counter.
pub ghost struct CountersView {
    pub start: int,
    pub commit: int,
    pub abort: int,
    pub overflow: int,
}

impl CountersView {
    /// The value of the named counter.
    pub open spec fn get(self, name: CounterName) -> int {
        match name {
            CounterName::Start => self.start,
            CounterName::Commit => self.commit,
            CounterName::Abort => self.abort,
            CounterName::Overflow => self.overflow,
        }
    }

    /// All four counters are non-negative and representable as 64-bit
    /// signed integers: they start at zero, only grow, and never pass the
    /// representable ceiling.
    pub open spec fn wf(self) -> bool {
        &&& 0 <= self.start <= i64::MAX
        &&& 0 <= self.commit <= i64::MAX
        &&& 0 <= self.abort <= i64::MAX
        &&& 0 <= self.overflow <= i64::MAX
    }

    /// One counter after an increment. The counter grows by exactly one;
    /// at the representable ceiling the event degrades to leaving the
    /// counter unincremented rather than failing.
    pub open spec fn bumped_value(v: int) -> int {
        if v < i64::MAX {
            v + 1
        } else {
            v
        }
    }

    /// The store after incrementing the named counter: that counter is
    /// bumped, the other three are untouched.
    pub open spec fn bump(self, name: CounterName) -> CountersView {
        match name {
            CounterName::Start => CountersView { start: Self::bumped_value(self.start), ..self },
            CounterName::Commit => CountersView { commit: Self::bumped_value(self.commit), ..self },
            CounterName::Abort => CountersView { abort: Self::bumped_value(self.abort), ..self },
            CounterName::Overflow => CountersView {
                overflow: Self::bumped_value(self.overflow),
                ..self
            },
        }
    }

    /// The all-zero store, as shared memory is handed out at server start.
    pub open spec fn zero() -> CountersView {
        CountersView { start: 0, commit: 0, abort: 0, overflow: 0 }
    }
}

/// The four event counters of one server instance.
pub struct CounterStore {
    start: i64,
    commit: i64,
    abort: i64,
    overflow: i64,
}

impl View for CounterStore {
    type V = CountersView;

    closed spec fn view(&self) -> CountersView {
        CountersView {
            start: self.start as int,
            commit: self.commit as int,
            abort: self.abort as int,
            overflow: self.overflow as int,
        }
    }
}

impl CounterStore {
    /// A fresh, zero-initialized store, as the host's shared-memory
    /// initializer produces it once per server instance.
    pub fn new() -> (r: CounterStore)
        ensures
            r@ == CountersView::zero(),
            r@.wf(),
    {
        CounterStore { start: 0, commit: 0, abort: 0, overflow: 0 }
    }

    /// A point-in-time copy of counter values that a deployment keeps in a
    /// host-managed shared region, so that the snapshot reader can work on
    /// the copy.
    pub fn from_values(start: i64, commit: i64, abort: i64, overflow: i64) -> (r: CounterStore)
        ensures
            r@ == (CountersView {
                start: start as int,
                commit: commit as int,
                abort: abort as int,
                overflow: overflow as int,
            }),
    {
        CounterStore { start, commit, abort, overflow }
    }

    /// Increment the named counter by exactly one, leaving the other three
    /// unchanged. Never fails: at the representable ceiling the counter is
    /// left as it is.
    pub fn increment(&mut self, name: CounterName)
        ensures
            final(self)@ == old(self)@.bump(name),
    {
        match name {
            CounterName::Start => {
                if self.start < i64::MAX {
                    self.start = self.start + 1;
                }
            },
            CounterName::Commit => {
                if self.commit < i64::MAX {
                    self.commit = self.commit + 1;
                }
            },
            CounterName::Abort => {
                if self.abort < i64::MAX {
                    self.abort = self.abort + 1;
                }
            },
            CounterName::Overflow => {
                if self.overflow < i64::MAX {
                    self.overflow = self.overflow + 1;
                }
            },
        }
    }

    /// Read the named counter.
    pub fn read(&self, name: CounterName) -> (r: i64)
        ensures
            r == self@.get(name),
    {
        match name {
            CounterName::Start => self.start,
            CounterName::Commit => self.commit,
            CounterName::Abort => self.abort,
            CounterName::Overflow => self.overflow,
        }
    }
}

/// Incrementing preserves well-formedness and never decreases any counter:
/// each counter is monotonically non-decreasing over any run of events.
pub proof fn lemma_bump_monotonic(c: CountersView, name: CounterName)
    requires
        c.wf(),
    ensures
        c.bump(name).wf(),
        forall|n: CounterName| c.get(n) <= c.bump(name).get(n),
{
}

} // verus!
