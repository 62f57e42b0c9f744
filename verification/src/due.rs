//! Due dates given as a word.
//!
//! `today` and `tomorrow`, in any letter case, name the last millisecond of
//! that civil day in the local time zone. Any other text names no due date.

use vstd::prelude::*;
use vstd::string::*;
use crate::clock::{local_time_on, local_today};
use crate::lettercase::{lowercase, lowercase_of};
use crate::timestamp::Timestamp;

verus! {

/// The hour, minute, second and millisecond at which a due day ends.
pub const DUE_HOUR: u32 = 23;

pub const DUE_MINUTE: u32 = 59;

pub const DUE_SECOND: u32 = 59;

pub const DUE_MILLI: u32 = 999;

/// A day that a due date can name.
#[derive(Clone, Copy, Debug, PartialEq, Eq, Structural)]
pub enum DueWord {
    Today,
    Tomorrow,
}

impl DueWord {
    /// How many days after the current one the word names.
    pub open spec fn days_ahead(self) -> int {
        match self {
            DueWord::Today => 0,
            DueWord::Tomorrow => 1,
        }
    }

    /// Computes `days_ahead`.
    pub fn days(self) -> (d: i32)
        ensures
            d == self.days_ahead(),
    {
        match self {
            DueWord::Today => 0,
            DueWord::Tomorrow => 1,
        }
    }
}

/// The day that a text in lowercase names.
pub open spec fn word_of_lowered(lowered: Seq<char>) -> Option<DueWord> {
    if lowered == "today"@ {
        Some(DueWord::Today)
    } else if lowered == "tomorrow"@ {
        Some(DueWord::Tomorrow)
    } else {
        None
    }
}

/// The day that a text names, whatever its letter case.
pub open spec fn due_word(input: Seq<char>) -> Option<DueWord> {
    word_of_lowered(lowercase_of(input))
}

/// The instant is the last millisecond of a civil day on the clock that
/// showed it: 23:59:59.999.
pub open spec fn ends_a_day(ts: Timestamp) -> bool {
    &&& ts.local_second_of_day() == DUE_HOUR * 3600 + DUE_MINUTE * 60 + DUE_SECOND
    &&& ts.nanos == DUE_MILLI * 1_000_000
}

/// The instant is the last millisecond of the civil day `day`, in days from
/// 1970-01-01.
pub open spec fn ends_day(ts: Timestamp, day: int) -> bool {
    ts.local_day() == day && ends_a_day(ts)
}

/// Decides which day a text in lowercase names.
pub fn recognize_lowered(lowered: &str) -> (word: Option<DueWord>)
    ensures
        word == word_of_lowered(lowered@),
{
    let text = String::from_str(lowered);
    if text == String::from_str("today") {
        Some(DueWord::Today)
    } else if text == String::from_str("tomorrow") {
        Some(DueWord::Tomorrow)
    } else {
        None
    }
}

/// Decides which day a text names, whatever its letter case.
pub fn recognize(input: &str) -> (word: Option<DueWord>)
    ensures
        word == due_word(input@),
{
    let lowered = lowercase(input);
    recognize_lowered(lowered.as_str())
}

/// The due date that a word names where the current civil day is `today` (in
/// days from 1970-01-01): the last millisecond of the named day in the local
/// time zone. There is none where the day is out of range or the local time
/// zone does not have that civil time exactly once.
pub fn due_date_on(word: DueWord, today: i32) -> (due: Option<Timestamp>)
    ensures
        due matches Some(ts) ==> ends_day(ts, today + word.days_ahead()),
        today + word.days_ahead() > i32::MAX ==> due is None,
{
    match today.checked_add(word.days()) {
        Some(day) => local_time_on(day, DUE_HOUR, DUE_MINUTE, DUE_SECOND, DUE_MILLI),
        None => None,
    }
}

/// The due date that a text names: for `today` and `tomorrow`, in any letter
/// case, the last millisecond of that civil day in the local time zone; for
/// any other text none.
pub fn parse_due_date(input: &str) -> (due: Option<Timestamp>)
    ensures
        due_word(input@) is None ==> due is None,
        due matches Some(ts) ==> ends_a_day(ts),
{
    match recognize(input) {
        Some(word) => due_date_on(word, local_today()),
        None => None,
    }
}

} // verus!
