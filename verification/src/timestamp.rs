//! Points in time as plain integers.

use vstd::prelude::*;

verus! {

/// Seconds in a civil day.
pub const SECONDS_PER_DAY: i64 = 86_400;

/// The first second that a timestamp can name: midnight before
/// January 1 of the year -262143, counted from the Unix epoch.
pub const MIN_SECS: i64 = -8_334_601_228_800;

/// The last second that a timestamp can name: the end of
/// December 31 of the year 262142, counted from the Unix epoch.
pub const MAX_SECS: i64 = 8_210_266_876_799;

/// An instant together with the offset of the civil clock that showed it.
///
/// `secs` and `nanos` count from 1970-01-01T00:00:00 UTC and ignore leap
/// seconds; a leap second is the second before it with `nanos` of a billion or
/// more. `offset` is what the civil clock is ahead of UTC, in seconds.
#[derive(Clone, Copy, Debug, PartialEq, Eq, Structural)]
pub struct Timestamp {
    pub secs: i64,
    pub nanos: u32,
    pub offset: i32,
}

impl Timestamp {
    /// The instant lies in the range of dates that can be named, and a leap
    /// second stands only at the end of a minute.
    pub open spec fn representable(self) -> bool {
        &&& MIN_SECS <= self.secs <= MAX_SECS
        &&& self.nanos < 2_000_000_000
        &&& (self.nanos >= 1_000_000_000 ==> self.secs % 60 == 59)
    }

    /// The instant is representable, the offset is less than a day, and the
    /// civil reading lies in the range of dates that can be named too: the
    /// timestamp can be written down.
    pub open spec fn well_formed(self) -> bool {
        &&& self.representable()
        &&& -SECONDS_PER_DAY < self.offset < SECONDS_PER_DAY
        &&& MIN_SECS <= self.local_secs() <= MAX_SECS
    }

    /// Seconds from the epoch to the civil reading, as if the civil clock ran in UTC.
    pub open spec fn local_secs(self) -> int {
        self.secs + self.offset
    }

    /// The civil date, in days from 1970-01-01.
    pub open spec fn local_day(self) -> int {
        self.local_secs() / (SECONDS_PER_DAY as int)
    }

    /// The civil time of day, in seconds from midnight.
    pub open spec fn local_second_of_day(self) -> int {
        self.local_secs() % (SECONDS_PER_DAY as int)
    }

    /// Decides `representable`.
    pub fn is_representable(&self) -> (r: bool)
        ensures
            r == self.representable(),
    {
        if self.secs < MIN_SECS || self.secs > MAX_SECS {
            return false;
        }
        if self.nanos >= 2_000_000_000 {
            return false;
        }
        if self.nanos >= 1_000_000_000 {
            // MIN_SECS is a whole number of minutes, so the shift keeps the second of the minute.
            let shifted: u64 = (self.secs - MIN_SECS) as u64;
            return shifted % 60 == 59;
        }
        true
    }

    /// Decides `well_formed`.
    pub fn is_well_formed(&self) -> (r: bool)
        ensures
            r == self.well_formed(),
    {
        if !self.is_representable() {
            return false;
        }
        if self.offset <= -86_400 || self.offset >= 86_400 {
            return false;
        }
        let local: i64 = self.secs + self.offset as i64;
        MIN_SECS <= local && local <= MAX_SECS
    }
}

} // verus!
