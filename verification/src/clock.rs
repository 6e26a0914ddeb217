//! Creation times.
//!
//! The clock of the machine may be set back. The times that records are
//! created at may not go back: a record is created no earlier than the one
//! before it. So a reading of the clock is not taken as it is: it is held at
//! the latest creation time where it lies before it.
//!
//! Instants are counted in nanoseconds since the start of 1970 in UTC.

use vstd::prelude::*;

verus! {

/// The reading that the clock gave: the count where it gave one, and the
/// last instant that can be counted where the time lies beyond it.
pub open spec fn reading_of(clock: Option<i64>) -> int {
    match clock {
        Some(nanos) => nanos as int,
        None => i64::MAX as int,
    }
}

/// The creation time of a record that is created when the clock reads
/// `reading` and the latest record was created at `latest`.
pub open spec fn next_instant(latest: int, reading: int) -> int {
    if reading < latest {
        latest
    } else {
        reading
    }
}

/// The reading that the clock gave.
pub fn to_reading(clock: Option<i64>) -> (reading: i64)
    ensures
        reading == reading_of(clock),
{
    match clock {
        Some(nanos) => nanos,
        None => i64::MAX,
    }
}

/// Creation times do not go back: a record is created no earlier than the
/// latest one before it, whatever the clock reads, and no earlier than the
/// clock reads.
pub proof fn law_creation_times_do_not_go_back(latest: int, first: int, second: int)
    ensures
        next_instant(latest, first) >= latest,
        next_instant(latest, first) >= first,
        next_instant(next_instant(latest, first), second) >= next_instant(latest, first),
{
}

} // verus!
