use pg_subxact_counters::counters::CounterName;
use pg_subxact_counters::counters::CounterStore;
use pg_subxact_counters::observer::observe;
use pg_subxact_counters::observer::OverflowTracker;
use pg_subxact_counters::observer::SubxactEvent;

fn read_all(store: &CounterStore) -> (i64, i64, i64, i64) {
    (
        store.read(CounterName::Start),
        store.read(CounterName::Commit),
        store.read(CounterName::Abort),
        store.read(CounterName::Overflow),
    )
}

#[test]
fn starts_without_overflow_count_only_starts() {
    let mut store = CounterStore::new();
    let mut tracker = OverflowTracker::new();
    let n = 7;
    for _ in 0..n {
        observe(&mut store, &mut tracker, SubxactEvent::Start { overflowed: false });
    }
    assert_eq!(read_all(&store), (n, 0, 0, 0));
}

#[test]
fn commit_and_abort_count_their_own_events_only() {
    let mut store = CounterStore::new();
    let mut tracker = OverflowTracker::new();
    observe(&mut store, &mut tracker, SubxactEvent::Commit);
    observe(&mut store, &mut tracker, SubxactEvent::Abort);
    observe(&mut store, &mut tracker, SubxactEvent::Commit);
    observe(&mut store, &mut tracker, SubxactEvent::Commit);
    observe(&mut store, &mut tracker, SubxactEvent::Abort);
    assert_eq!(read_all(&store), (0, 3, 2, 0));
}

#[test]
fn pre_commit_is_ignored() {
    let mut store = CounterStore::new();
    let mut tracker = OverflowTracker::new();
    let before = tracker;
    observe(&mut store, &mut tracker, SubxactEvent::PreCommit);
    assert_eq!(read_all(&store), (0, 0, 0, 0));
    assert_eq!(tracker, before);
}

#[test]
fn overflow_counted_once_per_episode() {
    // Overflow statuses observed across six starts: two separate episodes,
    // so the overflow counter must grow by exactly 2.
    let statuses = [false, true, true, true, false, true];
    let mut store = CounterStore::new();
    let mut tracker = OverflowTracker::new();
    for &overflowed in statuses.iter() {
        observe(&mut store, &mut tracker, SubxactEvent::Start { overflowed });
    }
    assert_eq!(store.read(CounterName::Start), 6);
    assert_eq!(store.read(CounterName::Overflow), 2);
}

#[test]
fn unbroken_overflow_run_counted_once() {
    let mut store = CounterStore::new();
    let mut tracker = OverflowTracker::new();
    for _ in 0..5 {
        observe(&mut store, &mut tracker, SubxactEvent::Start { overflowed: true });
    }
    assert_eq!(store.read(CounterName::Overflow), 1);
}

#[test]
fn fresh_process_scenario_with_three_starts() {
    // From a fresh (non-latched) process: statuses [true, true, false].
    let mut store = CounterStore::new();
    let mut tracker = OverflowTracker::new();
    observe(&mut store, &mut tracker, SubxactEvent::Start { overflowed: true });
    observe(&mut store, &mut tracker, SubxactEvent::Start { overflowed: true });
    observe(&mut store, &mut tracker, SubxactEvent::Start { overflowed: false });
    assert_eq!(store.read(CounterName::Overflow), 1);
    assert_eq!(store.read(CounterName::Start), 3);
}

#[test]
fn latch_clears_when_overflow_ends_and_rearms() {
    let mut store = CounterStore::new();
    let mut tracker = OverflowTracker::new();
    observe(&mut store, &mut tracker, SubxactEvent::Start { overflowed: true });
    assert_eq!(store.read(CounterName::Overflow), 1);
    // Episode ends: a non-overflowed start clears the latch.
    observe(&mut store, &mut tracker, SubxactEvent::Start { overflowed: false });
    assert_eq!(store.read(CounterName::Overflow), 1);
    // A new episode is counted again.
    observe(&mut store, &mut tracker, SubxactEvent::Start { overflowed: true });
    assert_eq!(store.read(CounterName::Overflow), 2);
}

#[test]
fn commits_and_aborts_do_not_touch_the_latch() {
    let mut store = CounterStore::new();
    let mut tracker = OverflowTracker::new();
    observe(&mut store, &mut tracker, SubxactEvent::Start { overflowed: true });
    observe(&mut store, &mut tracker, SubxactEvent::Commit);
    observe(&mut store, &mut tracker, SubxactEvent::Abort);
    // Still the same episode: the next overflowed start is not re-counted.
    observe(&mut store, &mut tracker, SubxactEvent::Start { overflowed: true });
    assert_eq!(store.read(CounterName::Overflow), 1);
}
