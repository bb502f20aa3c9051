//! The snapshot reader: a point-in-time read of the four counters, granted
//! only to holders of the superuser capability.
//!
//! The host binding reports whether the calling session holds the
//! unrestricted-administrator capability; the decision is taken here. A denied
//! caller gets a typed permission-denied outcome and no data. The four
//! counter loads are independent: under concurrent increments the row may
//! mix values observed at slightly different instants.

use vstd::prelude::*;

use crate::counters::CounterName;
use crate::counters::CounterStore;
use crate::counters::CountersView;

verus! {

/// One row of the tabular read: the four counters, by column name.
#[derive(Clone, Copy, PartialEq, Eq, Structural, Debug)]
pub struct CountersRow {
    pub subxact_start: i64,
    pub subxact_commit: i64,
    pub subxact_abort: i64,
    pub subxact_overflow: i64,
}

/// Why a read returned no row. Authorization failure is the only error of
/// the read path: it is user-visible and non-retriable, and no state
/// mutation occurs.
#[derive(Clone, Copy, PartialEq, Eq, Structural, Debug)]
pub enum ReadError {
    PermissionDenied,
}

/// The row that a permitted read of counters `c` returns.
pub open spec fn row_of(c: CountersView) -> CountersRow {
    CountersRow {
        subxact_start: c.start as i64,
        subxact_commit: c.commit as i64,
        subxact_abort: c.abort as i64,
        subxact_overflow: c.overflow as i64,
    }
}

/// What a read returns: the row for a superuser, permission denied — and
/// never any counter value — for anyone else.
pub open spec fn read_result(c: CountersView, superuser: bool) -> Result<CountersRow, ReadError> {
    if superuser {
        Ok(row_of(c))
    } else {
        Err(ReadError::PermissionDenied)
    }
}

/// Read the four counters as one row, provided the calling session holds
/// the superuser capability; otherwise fail with permission denied and
/// return no data. The result is a function of the store and the
/// capability alone: the read mutates nothing.
pub fn read_counters(store: &CounterStore, superuser: bool) -> (r: Result<CountersRow, ReadError>)
    ensures
        r == read_result(store@, superuser),
{
    if !superuser {
        return Err(ReadError::PermissionDenied);
    }
    Ok(
        CountersRow {
            subxact_start: store.read(CounterName::Start),
            subxact_commit: store.read(CounterName::Commit),
            subxact_abort: store.read(CounterName::Abort),
            subxact_overflow: store.read(CounterName::Overflow),
        },
    )
}

/// Reads are idempotent: two reads of the same store with no intervening
/// events return identical outcomes, row for row.
pub proof fn lemma_read_idempotent(
    c: CountersView,
    superuser: bool,
    r1: Result<CountersRow, ReadError>,
    r2: Result<CountersRow, ReadError>,
)
    requires
        r1 == read_result(c, superuser),
        r2 == read_result(c, superuser),
    ensures
        r1 == r2,
{
}

/// A caller without the superuser capability always fails with permission
/// denied, whatever the counters hold, and observes no counter value.
pub proof fn lemma_read_requires_superuser(c: CountersView)
    ensures
        read_result(c, false) == Err::<CountersRow, ReadError>(ReadError::PermissionDenied),
{
}

} // verus!
