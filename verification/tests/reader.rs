use pg_subxact_counters::counters::CounterStore;
use pg_subxact_counters::observer::observe;
use pg_subxact_counters::observer::OverflowTracker;
use pg_subxact_counters::observer::SubxactEvent;
use pg_subxact_counters::reader::read_counters;
use pg_subxact_counters::reader::CountersRow;
use pg_subxact_counters::reader::ReadError;

#[test]
fn superuser_reads_the_four_counters_as_one_row() {
    let mut store = CounterStore::new();
    let mut tracker = OverflowTracker::new();
    observe(&mut store, &mut tracker, SubxactEvent::Start { overflowed: false });
    observe(&mut store, &mut tracker, SubxactEvent::Commit);
    let row = read_counters(&store, true).unwrap();
    assert_eq!(
        row,
        CountersRow {
            subxact_start: 1,
            subxact_commit: 1,
            subxact_abort: 0,
            subxact_overflow: 0,
        }
    );
}

#[test]
fn non_superuser_is_always_denied() {
    let store = CounterStore::new();
    assert_eq!(read_counters(&store, false), Err(ReadError::PermissionDenied));
    // Denied whatever the counters hold.
    let mut store = CounterStore::new();
    let mut tracker = OverflowTracker::new();
    observe(&mut store, &mut tracker, SubxactEvent::Start { overflowed: true });
    assert_eq!(read_counters(&store, false), Err(ReadError::PermissionDenied));
}

#[test]
fn reading_twice_with_no_events_is_idempotent() {
    let mut store = CounterStore::new();
    let mut tracker = OverflowTracker::new();
    observe(&mut store, &mut tracker, SubxactEvent::Start { overflowed: true });
    observe(&mut store, &mut tracker, SubxactEvent::Abort);
    let first = read_counters(&store, true);
    let second = read_counters(&store, true);
    assert_eq!(first, second);
}

#[test]
fn end_to_end_four_subtransactions() {
    // Four subtransactions opened and closed, outcomes
    // [commit, abort, abort, abort], no overflow.
    let mut store = CounterStore::new();
    let mut tracker = OverflowTracker::new();
    let outcomes = [SubxactEvent::Commit, SubxactEvent::Abort, SubxactEvent::Abort,
        SubxactEvent::Abort];
    for &outcome in outcomes.iter() {
        observe(&mut store, &mut tracker, SubxactEvent::Start { overflowed: false });
        observe(&mut store, &mut tracker, outcome);
    }
    let row = read_counters(&store, true).unwrap();
    assert_eq!(
        row,
        CountersRow {
            subxact_start: 4,
            subxact_commit: 1,
            subxact_abort: 3,
            subxact_overflow: 0,
        }
    );
}
