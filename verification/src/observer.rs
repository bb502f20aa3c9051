//! The event observer: the state machine driven by subtransaction lifecycle
//! notifications.
//!
//! Each backend process keeps a private overflow tracker. On a `start`
//! notification the host also reports whether that backend's
//! subtransaction-id cache has overflowed; the tracker latches the first
//! observation of an overflow episode so that the shared `overflow` counter
//! grows once per episode, not once per observation.

use vstd::prelude::*;

use crate::counters::CounterName;
use crate::counters::CounterStore;
use crate::counters::CountersView;

verus! {

/// One subtransaction lifecycle notification from the host transaction
/// manager. A `start` carries the host-reported overflow status of the
/// backend's subtransaction-id cache; `pre-commit` is explicitly ignored.
#[derive(Clone, Copy, PartialEq, Eq, Structural, Debug)]
pub enum SubxactEvent {
    Start { overflowed: bool },
    PreCommit,
    Commit,
    Abort,
}

/// Per-process overflow state: the last host-reported overflow status, and
/// the sticky latch that marks the current episode as already counted.
#[derive(Clone, Copy, PartialEq, Eq, Structural, Debug)]
pub struct OverflowTracker {
    /// Host-reported overflow status at the most recent `start`.
    pub proc_overflowed: bool,
    /// True while the current overflow episode has already been counted.
    pub episode_latched: bool,
}

/// A `start` with this host-reported status begins a new overflow episode:
/// the backend is overflowed and no episode is latched yet. Exactly these
/// starts increment the shared `overflow` counter.
pub open spec fn starts_new_episode(t: OverflowTracker, overflowed: bool) -> bool {
    !t.episode_latched && overflowed
}

/// The tracker after a `start` with the given host-reported status, per the
/// episode de-duplication rules (first match wins):
/// a new episode latches; a non-overflowed observation clears the latch;
/// an already-latched ongoing episode changes nothing.
pub open spec fn tracker_after_start(t: OverflowTracker, overflowed: bool) -> OverflowTracker {
    OverflowTracker {
        proc_overflowed: overflowed,
        episode_latched: if starts_new_episode(t, overflowed) {
            true
        } else if !overflowed {
            false
        } else {
            t.episode_latched
        },
    }
}

/// The tracker after any event: only a `start` touches it.
pub open spec fn tracker_after_event(t: OverflowTracker, e: SubxactEvent) -> OverflowTracker {
    match e {
        SubxactEvent::Start { overflowed } => tracker_after_start(t, overflowed),
        _ => t,
    }
}

/// The counters after one event observed with tracker state `t`:
/// `commit` and `abort` count their own events; a `start` always counts,
/// and additionally counts an overflow when it begins a new episode;
/// `pre-commit` is a no-op.
pub open spec fn counters_after_event(
    c: CountersView,
    t: OverflowTracker,
    e: SubxactEvent,
) -> CountersView {
    match e {
        SubxactEvent::Start { overflowed } => {
            if starts_new_episode(t, overflowed) {
                c.bump(CounterName::Start).bump(CounterName::Overflow)
            } else {
                c.bump(CounterName::Start)
            }
        },
        SubxactEvent::PreCommit => c,
        SubxactEvent::Commit => c.bump(CounterName::Commit),
        SubxactEvent::Abort => c.bump(CounterName::Abort),
    }
}

/// The whole observer state one backend sees: the shared counters and its
/// private tracker.
pub ghost struct ObserverState {
    pub counters: CountersView,
    pub tracker: OverflowTracker,
}

impl ObserverState {
    /// The state after one event.
    pub open spec fn step(self, e: SubxactEvent) -> ObserverState {
        ObserverState {
            counters: counters_after_event(self.counters, self.tracker, e),
            tracker: tracker_after_event(self.tracker, e),
        }
    }

    /// The state after a sequence of events, observed in order.
    pub open spec fn run(self, es: Seq<SubxactEvent>) -> ObserverState
        decreases es.len(),
    {
        if es.len() == 0 {
            self
        } else {
            self.step(es[0]).run(es.skip(1))
        }
    }
}

impl OverflowTracker {
    /// The tracker a backend process starts with: nothing observed, nothing
    /// latched.
    pub fn new() -> (r: OverflowTracker)
        ensures
            r == (OverflowTracker { proc_overflowed: false, episode_latched: false }),
    {
        OverflowTracker { proc_overflowed: false, episode_latched: false }
    }

    /// Record a `start` observation: store the host-reported status and run
    /// the episode de-duplication decision. Returns whether this `start`
    /// begins a new overflow episode — exactly then the caller must
    /// increment the shared `overflow` counter.
    pub fn note_start(&mut self, overflowed: bool) -> (new_episode: bool)
        ensures
            *final(self) == tracker_after_start(*old(self), overflowed),
            new_episode == starts_new_episode(*old(self), overflowed),
    {
        self.proc_overflowed = overflowed;
        if !self.episode_latched && overflowed {
            self.episode_latched = true;
            true
        } else {
            if !overflowed {
                self.episode_latched = false;
            }
            false
        }
    }
}

/// Observe one lifecycle event: update the shared counters and the calling
/// backend's private tracker exactly as the state machine prescribes.
/// Never fails, whatever the event or the tracker state.
pub fn observe(store: &mut CounterStore, tracker: &mut OverflowTracker, event: SubxactEvent)
    ensures
        final(store)@ == counters_after_event(old(store)@, *old(tracker), event),
        *final(tracker) == tracker_after_event(*old(tracker), event),
{
    match event {
        SubxactEvent::Start { overflowed } => {
            let new_episode = tracker.note_start(overflowed);
            store.increment(CounterName::Start);
            if new_episode {
                store.increment(CounterName::Overflow);
            }
        },
        SubxactEvent::PreCommit => {},
        SubxactEvent::Commit => {
            store.increment(CounterName::Commit);
        },
        SubxactEvent::Abort => {
            store.increment(CounterName::Abort);
        },
    }
}

} // verus!
