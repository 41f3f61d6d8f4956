//! Clock readings, the text under which they are stored, and the due date
//! that a task gets when none is named.
//!
//! A reading is a count of seconds since 1970-01-01 00:00:00 on the wall
//! clock. Its text has the form `YYYY-MM-DD HH:MM:SS` and is made by chrono.

use vstd::prelude::*;
use crate::db::text_view;

verus! {

/// The seconds of one day.
pub const SECONDS_PER_DAY: i64 = 86_400;

/// The last reading of the year 9999.
pub const LAST_FOUR_DIGIT_SECOND: i64 = 253_402_300_799;

/// Whether the reading lies between the start of 1970 and the end of 9999.
pub open spec fn in_four_digit_years(secs: int) -> bool {
    0 <= secs <= LAST_FOUR_DIGIT_SECOND
}

/// The text of the reading `secs`, as chrono writes it under the pattern
/// `%Y-%m-%d %H:%M:%S`; `None` where chrono has no date for the reading.
pub uninterp spec fn instant_text(secs: i64) -> Option<Seq<char>>;

/// Calls chrono: `DateTime::from_timestamp(secs, 0)`, and on the date it
/// gives `format("%Y-%m-%d %H:%M:%S")`. The contract claims two things.
/// The outcome is a function of `secs`, named `instant_text`: the text where
/// chrono has a date for the reading, `None` where it has not. And chrono has
/// a date for every reading from 1970 through 9999, which is well within the
/// years it covers, -262143 to 262142.
#[verifier::external_body]
fn format_instant(secs: i64) -> (text: Option<String>)
    ensures
        text_view(text) == instant_text(secs),
        in_four_digit_years(secs as int) ==> text is Some,
{
    let date = chrono::DateTime::from_timestamp(secs, 0)?;
    Some(date.format("%Y-%m-%d %H:%M:%S").to_string())
}

/// The reading that lies `days` whole days after `secs`.
pub open spec fn shifted(secs: int, days: int) -> int {
    secs + days * SECONDS_PER_DAY
}

/// The reading `days` whole days after `secs`, where it is a 64-bit count of
/// seconds.
pub open spec fn spec_shifted_reading(secs: i64, days: i64) -> Option<i64> {
    let due = shifted(secs as int, days as int);
    if i64::MIN <= due <= i64::MAX {
        Some(due as i64)
    } else {
        None
    }
}

/// The reading `days` whole days after `secs`, where it is a 64-bit count of
/// seconds.
pub fn shifted_reading(secs: i64, days: i64) -> (due: Option<i64>)
    ensures
        due == spec_shifted_reading(secs, days),
{
    let span: i128 = days as i128 * (SECONDS_PER_DAY as i128);
    let due: i128 = secs as i128 + span;
    if due < i64::MIN as i128 || due > i64::MAX as i128 {
        None
    } else {
        Some(due as i64)
    }
}

/// The text of the reading `days` whole days after `secs`; `None` where the
/// later reading is no 64-bit count of seconds, or has no text.
pub open spec fn due_text(secs: i64, days: i64) -> Option<Seq<char>> {
    match spec_shifted_reading(secs, days) {
        Some(due) => instant_text(due),
        None => None,
    }
}

/// A clock reading together with its text.
pub struct Timestamp {
    secs: i64,
    text: String,
}

impl Timestamp {
    #[verifier::type_invariant]
    spec fn legible(self) -> bool {
        instant_text(self.secs) == Some(self.text@)
    }

    /// The seconds of the reading.
    pub closed spec fn spec_seconds(&self) -> i64 {
        self.secs
    }

    /// The text of the reading.
    pub closed spec fn spec_text(&self) -> Seq<char> {
        self.text@
    }

    /// The reading `secs`, where it has a text.
    pub fn at(secs: i64) -> (reading: Option<Timestamp>)
        ensures
            match reading {
                Some(t) => t.spec_seconds() == secs && instant_text(secs) == Some(t.spec_text()),
                None => instant_text(secs) is None,
            },
            in_four_digit_years(secs as int) ==> reading is Some,
    {
        match format_instant(secs) {
            Some(text) => Some(Timestamp { secs, text }),
            None => None,
        }
    }

    /// The seconds of the reading.
    pub fn seconds(&self) -> (secs: i64)
        ensures
            secs == self.spec_seconds(),
            instant_text(secs) == Some(self.spec_text()),
    {
        proof {
            use_type_invariant(self);
        }
        self.secs
    }

    /// The text of the reading.
    pub fn text(&self) -> (text: &str)
        ensures
            text@ == self.spec_text(),
            instant_text(self.spec_seconds()) == Some(text@),
    {
        proof {
            use_type_invariant(self);
        }
        self.text.as_str()
    }

    /// The reading `days` whole days later, where it has a text.
    pub fn after_days(&self, days: i64) -> (later: Option<Timestamp>)
        ensures
            match later {
                Some(t) => {
                    &&& t.spec_seconds() == shifted(self.spec_seconds() as int, days as int)
                    &&& due_text(self.spec_seconds(), days) == Some(t.spec_text())
                },
                None => due_text(self.spec_seconds(), days) is None,
            },
            in_four_digit_years(shifted(self.spec_seconds() as int, days as int)) ==> later
                is Some,
    {
        match shifted_reading(self.secs, days) {
            Some(due) => Timestamp::at(due),
            None => None,
        }
    }
}

/// The due date of a task for which none is named: the text of the reading
/// `days` whole days after `now`. `None` where that reading has no text.
pub fn default_due_at(now: &Timestamp, days: i64) -> (due: Option<String>)
    ensures
        text_view(due) == due_text(now.spec_seconds(), days),
        in_four_digit_years(shifted(now.spec_seconds() as int, days as int)) ==> due is Some,
{
    match now.after_days(days) {
        Some(later) => Some(later.text().to_owned()),
        None => None,
    }
}

} // verus!
