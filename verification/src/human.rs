//! How long ago or how far ahead a time is, in words, by `chrono-humanize`.
//!
//! Nothing here is proved. The wording takes pages to state, so it is given a
//! name, and the contract says that the outside call returns what the name
//! stands for.

use vstd::prelude::*;
use chrono::DateTime;
use chrono_humanize::HumanTime;
use crate::timestamp::Timestamp;

verus! {

/// The rough English wording of `chrono_humanize::HumanTime` for the time
/// from one instant to another, such as `in 2 hours`, `3 days ago` or `now`:
/// the first instant is the one spoken of, the second the one spoken at.
pub uninterp spec fn relative_text(secs: i64, nanos: u32, now_secs: i64, now_nanos: u32) -> Seq<
    char,
>;

/// Words for the time from `now` to `ts`: `DateTime::from_timestamp` for both,
/// `DateTime::signed_duration_since`, `HumanTime::from` and its `to_string`.
///
/// Both instants are representable, so `from_timestamp` returns a value, and
/// the time between two such instants is within the range of a duration.
#[verifier::external_body]
pub(crate) fn human_text(ts: &Timestamp, now: &Timestamp) -> (text: String)
    requires
        ts.representable(),
        now.representable(),
    ensures
        text@ == relative_text(ts.secs, ts.nanos, now.secs, now.nanos),
{
    let then = DateTime::from_timestamp(ts.secs, ts.nanos).unwrap();
    let base = DateTime::from_timestamp(now.secs, now.nanos).unwrap();
    HumanTime::from(then.signed_duration_since(base)).to_string()
}

} // verus!
