//! Timestamps as text, written and read by `chrono`.
//!
//! Nothing here is proved. The text of a timestamp and the value of a text
//! take pages to state, so each is given a name, and the contracts say that
//! the outside call returns what the name stands for.

use vstd::prelude::*;
use chrono::{DateTime, FixedOffset, SecondsFormat};
use crate::timestamp::Timestamp;

verus! {

/// The error of `chrono`'s parsers. Nothing is known of a value but that it is one.
#[verifier::external_type_specification]
#[verifier::external_body]
pub struct ExParseError(chrono::ParseError);

/// The text that `DateTime::<FixedOffset>::to_rfc3339_opts` gives, with
/// `SecondsFormat::AutoSi` and `Z` for UTC, for the instant `secs` and `nanos`
/// from the Unix epoch at the offset `offset`: the civil date and time of RFC
/// 3339 with as many fraction digits as the nanoseconds need, then the offset.
pub uninterp spec fn rfc3339_text(secs: i64, nanos: u32, offset: i32) -> Seq<char>;

/// What `str::parse::<DateTime<FixedOffset>>` reads from a text: seconds and
/// nanoseconds from the Unix epoch and the offset in seconds, or nothing
/// where `chrono` rejects the text.
pub uninterp spec fn rfc3339_value(text: Seq<char>) -> Option<(i64, u32, i32)>;

/// Writes a timestamp in the notation in which `chrono` serialises a
/// `DateTime`: `DateTime::from_timestamp`, `FixedOffset::east_opt`,
/// `DateTime::with_timezone` and
/// `DateTime::to_rfc3339_opts(SecondsFormat::AutoSi, true)`.
///
/// A well-formed timestamp is one for which the first two return a value and
/// the last finds the civil date in range, which is all that it asks for. The
/// text always holds a date, so it is not empty.
#[verifier::external_body]
pub(crate) fn format_timestamp(ts: &Timestamp) -> (text: String)
    requires
        ts.well_formed(),
    ensures
        text@ == rfc3339_text(ts.secs, ts.nanos, ts.offset),
        text@.len() > 0,
{
    let utc = DateTime::from_timestamp(ts.secs, ts.nanos).unwrap();
    let zone = FixedOffset::east_opt(ts.offset).unwrap();
    utc.with_timezone(&zone).to_rfc3339_opts(SecondsFormat::AutoSi, true)
}

/// Reads a timestamp in the notation from which `chrono` deserialises a
/// `DateTime`: `str::parse::<DateTime<FixedOffset>>`, then `DateTime::timestamp`,
/// `DateTime::timestamp_subsec_nanos` and `FixedOffset::local_minus_utc`.
#[verifier::external_body]
pub(crate) fn parse_timestamp(text: &str) -> (r: Result<Timestamp, chrono::ParseError>)
    ensures
        match r {
            Ok(ts) => rfc3339_value(text@) == Some((ts.secs, ts.nanos, ts.offset)),
            Err(_) => rfc3339_value(text@) is None,
        },
{
    let dt = text.parse::<DateTime<FixedOffset>>()?;
    Ok(
        Timestamp {
            secs: dt.timestamp(),
            nanos: dt.timestamp_subsec_nanos(),
            offset: dt.offset().local_minus_utc(),
        },
    )
}

} // verus!
