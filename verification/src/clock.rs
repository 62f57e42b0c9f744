//! The system clock and the local time zone, read through `chrono`.
//!
//! Nothing here is proved: each function states what the outside call gives on
//! every machine, at every time and in every time zone, and no more.

use vstd::prelude::*;
use chrono::{Local, NaiveDate};
use crate::timestamp::Timestamp;

verus! {

/// The current time with the offset of the local time zone, as
/// `chrono::Local::now` gives it, taken apart by `DateTime::timestamp`,
/// `DateTime::timestamp_subsec_nanos` and `FixedOffset::local_minus_utc`.
///
/// The reading depends on the clock and on the time zone of the machine.
/// Claimed is what holds of every reading: `chrono` builds it with
/// `DateTime::from_timestamp`, so its instant is one that this function
/// accepts, and its offset is a `FixedOffset`, which is less than a day.
#[verifier::external_body]
pub(crate) fn local_now() -> (now: Timestamp)
    ensures
        now.representable(),
        -86_400 < now.offset < 86_400,
{
    let dt = Local::now();
    Timestamp {
        secs: dt.timestamp(),
        nanos: dt.timestamp_subsec_nanos(),
        offset: dt.offset().local_minus_utc(),
    }
}

/// The current civil date in the local time zone, in days from 1970-01-01:
/// `chrono::Local::now`, then `DateTime::date_naive` and
/// `NaiveDate::to_epoch_days`. Nothing is claimed of it.
#[verifier::external_body]
pub(crate) fn local_today() -> (day: i32) {
    Local::now().date_naive().to_epoch_days()
}

/// The instant at which the local civil clock shows the given time on the
/// given day (in days from 1970-01-01), where the local time zone has exactly
/// one such instant: `NaiveDate::from_epoch_days`, `NaiveDate::and_hms_milli_opt`,
/// `NaiveDateTime::and_local_timezone` with `chrono::Local`, and
/// `MappedLocalTime::single`.
///
/// Which offset applies, and whether the civil time exists once, twice or not
/// at all, depends on the time zone of the machine. Claimed is only that an
/// instant that comes back shows, at its own offset, the day and the time that
/// were asked for.
#[verifier::external_body]
pub(crate) fn local_time_on(day: i32, hour: u32, minute: u32, second: u32, milli: u32) -> (r:
    Option<Timestamp>)
    ensures
        r matches Some(ts) ==> {
            &&& ts.local_day() == day
            &&& ts.local_second_of_day() == hour * 3600 + minute * 60 + second
            &&& ts.nanos == milli * 1_000_000
        },
{
    let civil = NaiveDate::from_epoch_days(day)?.and_hms_milli_opt(hour, minute, second, milli)?;
    let dt = civil.and_local_timezone(Local).single()?;
    Some(
        Timestamp {
            secs: dt.timestamp(),
            nanos: dt.timestamp_subsec_nanos(),
            offset: dt.offset().local_minus_utc(),
        },
    )
}

} // verus!
