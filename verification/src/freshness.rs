//! The freshness policy: a cached document is kept for the calendar month
//! in which it was written, and no longer.

use vstd::prelude::*;

verus! {

/// A moment as the local calendar and clock show it.
#[derive(Debug, Clone, Copy, PartialEq, Eq, Structural)]
pub struct LocalTimestamp {
    pub year: i32,
    pub month: u32,
    pub day: u32,
    pub hour: u32,
    pub minute: u32,
    pub second: u32,
}

impl LocalTimestamp {
    /// Whether the fields are within the ranges of a calendar and a clock.
    pub open spec fn well_formed(self) -> bool {
        &&& 1 <= self.month <= 12
        &&& 1 <= self.day <= 31
        &&& self.hour < 24
        &&& self.minute < 60
        &&& self.second < 60
    }

    /// Whether two moments fall in the same month of the same year.
    pub open spec fn same_month_as(self, other: LocalTimestamp) -> bool {
        self.year == other.year && self.month == other.month
    }

    /// A timestamp of the given fields, where they are within the ranges of
    /// a calendar and a clock.
    pub fn new(year: i32, month: u32, day: u32, hour: u32, minute: u32, second: u32) -> (made: Option<
        LocalTimestamp,
    >)
        ensures
            made == if (LocalTimestamp { year, month, day, hour, minute, second }).well_formed() {
                Some(LocalTimestamp { year, month, day, hour, minute, second })
            } else {
                None
            },
    {
        if 1 <= month && month <= 12 && 1 <= day && day <= 31 && hour < 24 && minute < 60 && second
            < 60 {
            Some(LocalTimestamp { year, month, day, hour, minute, second })
        } else {
            None
        }
    }
}

/// Whether a document last written at `last_modified` is stale at `now`:
/// it is as soon as the two fall in different calendar months, however
/// little time lies between them, and never before.
pub fn is_stale(now: LocalTimestamp, last_modified: LocalTimestamp) -> (stale: bool)
    ensures
        stale == !now.same_month_as(last_modified),
{
    now.year != last_modified.year || now.month != last_modified.month
}

} // verus!
