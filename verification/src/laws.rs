//! What holds of every run of the observer: counting laws for the four
//! counters and the once-per-episode law for overflow de-duplication.

use vstd::prelude::*;

use crate::counters::lemma_bump_monotonic;
use crate::counters::CounterName;
use crate::counters::CountersView;
use crate::observer::ObserverState;
use crate::observer::OverflowTracker;
use crate::observer::SubxactEvent;
use crate::observer::starts_new_episode;
use crate::observer::tracker_after_start;

verus! {

/// How many events of a sequence are commits.
pub open spec fn commit_count(es: Seq<SubxactEvent>) -> nat
    decreases es.len(),
{
    if es.len() == 0 {
        0
    } else {
        (if es[0] is Commit {
            1nat
        } else {
            0nat
        }) + commit_count(es.skip(1))
    }
}

/// How many events of a sequence are aborts.
pub open spec fn abort_count(es: Seq<SubxactEvent>) -> nat
    decreases es.len(),
{
    if es.len() == 0 {
        0
    } else {
        (if es[0] is Abort {
            1nat
        } else {
            0nat
        }) + abort_count(es.skip(1))
    }
}

/// The `commit` counter grows by exactly one per `commit` event and by
/// nothing else, and the `abort` counter by exactly one per `abort` event
/// and by nothing else, over any event sequence — provided the counts stay
/// below the representable ceiling, where an increment degrades to a no-op.
pub proof fn lemma_commit_abort_exact(s: ObserverState, es: Seq<SubxactEvent>)
    requires
        s.counters.commit + commit_count(es) <= i64::MAX,
        s.counters.abort + abort_count(es) <= i64::MAX,
    ensures
        s.run(es).counters.commit == s.counters.commit + commit_count(es),
        s.run(es).counters.abort == s.counters.abort + abort_count(es),
    decreases es.len(),
{
    if es.len() > 0 {
        lemma_commit_abort_exact(s.step(es[0]), es.skip(1));
    }
}

/// Over a sequence of starts none of which observes an overflow, the
/// `start` counter grows by exactly the number of starts and the `overflow`
/// counter does not move — provided the start count stays below the
/// representable ceiling.
pub proof fn lemma_start_run_exact(s: ObserverState, es: Seq<SubxactEvent>)
    requires
        forall|i: int|
            0 <= i < es.len() ==> es[i] == (SubxactEvent::Start { overflowed: false }),
        s.counters.start + es.len() <= i64::MAX,
    ensures
        s.run(es).counters.start == s.counters.start + es.len(),
        s.run(es).counters.overflow == s.counters.overflow,
    decreases es.len(),
{
    if es.len() > 0 {
        assert(es[0] == (SubxactEvent::Start { overflowed: false }));
        lemma_start_run_exact(s.step(es[0]), es.skip(1));
    }
}

/// No event ever decreases a counter: one observed step keeps every counter
/// at least where it was, and keeps the store well-formed.
pub proof fn lemma_step_monotonic(s: ObserverState, e: SubxactEvent)
    requires
        s.counters.wf(),
    ensures
        s.step(e).counters.wf(),
        forall|n: CounterName| s.counters.get(n) <= s.step(e).counters.get(n),
{
    match e {
        SubxactEvent::Start { overflowed } => {
            lemma_bump_monotonic(s.counters, CounterName::Start);
            if starts_new_episode(s.tracker, overflowed) {
                lemma_bump_monotonic(s.counters.bump(CounterName::Start), CounterName::Overflow);
            }
        },
        SubxactEvent::PreCommit => {},
        SubxactEvent::Commit => {
            lemma_bump_monotonic(s.counters, CounterName::Commit);
        },
        SubxactEvent::Abort => {
            lemma_bump_monotonic(s.counters, CounterName::Abort);
        },
    }
}

/// Each counter is monotonically non-decreasing over any run of events, and
/// the store stays well-formed: a counter moves back to zero only when the
/// server instance reinitializes its shared memory, never by an event.
pub proof fn lemma_run_monotonic(s: ObserverState, es: Seq<SubxactEvent>)
    requires
        s.counters.wf(),
    ensures
        s.run(es).counters.wf(),
        forall|n: CounterName| s.counters.get(n) <= s.run(es).counters.get(n),
    decreases es.len(),
{
    if es.len() > 0 {
        lemma_step_monotonic(s, es[0]);
        lemma_run_monotonic(s.step(es[0]), es.skip(1));
    }
}

/// The episode latch turns true only at the very step that increments the
/// `overflow` counter, and turns back false only on a `start` that observes
/// the backend as not overflowed.
pub proof fn lemma_latch_transitions(s: ObserverState, e: SubxactEvent)
    ensures
        !s.tracker.episode_latched && s.step(e).tracker.episode_latched ==> s.step(
            e,
        ).counters.overflow == CountersView::bumped_value(s.counters.overflow),
        s.tracker.episode_latched && !s.step(e).tracker.episode_latched ==> e == (SubxactEvent::Start {
            overflowed: false,
        }),
{
}

/// The sequence of `start` events that observes the given overflow statuses,
/// in order.
pub open spec fn start_events(ss: Seq<bool>) -> Seq<SubxactEvent> {
    ss.map(|i: int, b: bool| SubxactEvent::Start { overflowed: b })
}

/// How many of the starts with these statuses begin a new overflow episode,
/// when the first is observed with the latch in the given state. After each
/// start the latch equals the status just observed, so this counts exactly
/// the statuses that are `true` and follow a non-latched observation: one
/// per false-to-true transition.
pub open spec fn episode_onsets(latched: bool, ss: Seq<bool>) -> nat
    decreases ss.len(),
{
    if ss.len() == 0 {
        0
    } else {
        (if !latched && ss[0] {
            1nat
        } else {
            0nat
        }) + episode_onsets(ss[0], ss.skip(1))
    }
}

/// After a `start`, the episode latch equals the status that was observed.
pub proof fn lemma_latch_tracks_status(t: OverflowTracker, overflowed: bool)
    ensures
        tracker_after_start(t, overflowed).episode_latched == overflowed,
{
}

/// Overflow de-duplication: over any sequence of starts, the `overflow`
/// counter grows by exactly one per new episode — one per false-to-true
/// transition of the observed status, counting a leading `true` only when
/// no episode was latched — provided the count stays below the
/// representable ceiling. The `start` counter is not constrained here, so
/// the law holds however large the run.
pub proof fn lemma_overflow_once_per_episode(s: ObserverState, ss: Seq<bool>)
    requires
        s.counters.overflow + episode_onsets(s.tracker.episode_latched, ss) <= i64::MAX,
    ensures
        s.run(start_events(ss)).counters.overflow == s.counters.overflow + episode_onsets(
            s.tracker.episode_latched,
            ss,
        ),
    decreases ss.len(),
{
    if ss.len() > 0 {
        let e = SubxactEvent::Start { overflowed: ss[0] };
        assert(start_events(ss)[0] == e);
        assert(start_events(ss).skip(1) =~= start_events(ss.skip(1)));
        lemma_latch_tracks_status(s.tracker, ss[0]);
        lemma_overflow_once_per_episode(s.step(e), ss.skip(1));
    }
}

/// Within an unbroken run of `true` observations the `overflow` counter
/// moves at most once: exactly once from a fresh (non-latched) state, and
/// not at all while an episode is already latched.
pub proof fn lemma_once_per_true_run(latched: bool, ss: Seq<bool>)
    requires
        forall|i: int| 0 <= i < ss.len() ==> ss[i],
    ensures
        episode_onsets(latched, ss) == if !latched && ss.len() > 0 {
            1nat
        } else {
            0nat
        },
    decreases ss.len(),
{
    if ss.len() > 0 {
        assert(ss[0]);
        assert(forall|i: int| 0 <= i < ss.skip(1).len() ==> ss.skip(1)[i]);
        lemma_once_per_true_run(ss[0], ss.skip(1));
    }
}

} // verus!
