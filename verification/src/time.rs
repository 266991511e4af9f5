//! Points in time, as far as releases need them: when one was published, and
//! the calendar date of that moment.

use vstd::prelude::*;

verus! {

/// Seconds in a day.
pub const SECONDS_PER_DAY: i64 = 86_400;

/// A point in time on the UTC scale: whole seconds since the start of 1970,
/// and the nanoseconds into that second.
#[derive(Debug, Clone, Copy, PartialEq, Eq, Structural)]
pub struct Timestamp {
    pub secs: i64,
    pub nanos: u32,
}

impl Timestamp {
    /// The point in time `days` days of 86 400 seconds before this one.
    pub open spec fn earlier_by_days(self, days: int) -> Timestamp
        recommends
            i64::MIN <= self.secs - days * SECONDS_PER_DAY <= i64::MAX,
    {
        Timestamp { secs: (self.secs - days * SECONDS_PER_DAY) as i64, nanos: self.nanos }
    }

    /// Goes back by a number of whole days.
    pub fn days_earlier(&self, days: u16) -> (earlier: Timestamp)
        requires
            i64::MIN <= self.secs - days * SECONDS_PER_DAY,
        ensures
            earlier == self.earlier_by_days(days as int),
    {
        let span: i64 = (days as i64) * SECONDS_PER_DAY;
        Timestamp { secs: self.secs - span, nanos: self.nanos }
    }
}

/// The calendar date of a point in time, written as year, month and day with
/// hyphens between them: what `chrono` formats with `%Y-%m-%d` for the UTC
/// date-time that `chrono::DateTime::from_timestamp` makes of the seconds and
/// nanoseconds. `None` where `chrono` has no date-time for them.
pub uninterp spec fn utc_date_text(secs: int, nanos: int) -> Option<Seq<char>>;

/// Makes a UTC date-time with `chrono::DateTime::from_timestamp` and formats
/// it with `chrono::DateTime::format` and the pattern `%Y-%m-%d`. The
/// contract names the outcome.
#[verifier::external_body]
pub(crate) fn utc_date(at: Timestamp) -> (date: Option<String>)
    ensures
        match date {
            Some(text) => utc_date_text(at.secs as int, at.nanos as int) == Some(text@),
            None => utc_date_text(at.secs as int, at.nanos as int) is None,
        },
{
    match chrono::DateTime::from_timestamp(at.secs, at.nanos) {
        Some(moment) => Some(moment.format("%Y-%m-%d").to_string()),
        None => None,
    }
}

} // verus!
