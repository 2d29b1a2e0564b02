//! The local wall clock, read through a trusted wrapper.

use vstd::prelude::*;

use chrono::Datelike;
use chrono::Timelike;

use crate::scheduler::calendar::Date;
use crate::scheduler::calendar::NaiveTime;

verus! {

/// A reading of the local wall clock: the civil date, the time of day, and
/// the Monday-based weekday index of that date.
#[derive(Clone, Copy, Debug, PartialEq, Eq, Structural)]
pub struct Moment {
    pub date: Date,
    pub time: NaiveTime,
    pub weekday: u32,
}

impl Moment {
    /// A well-formed clock reading.
    pub open spec fn wf(self) -> bool {
        &&& self.date.wf()
        &&& self.time.wf()
        &&& self.weekday < 7
    }

    /// Whether the stored weekday really indexes the stored date: day
    /// numbers count from a Monday, so the weekday is the day number modulo
    /// seven.
    pub open spec fn weekday_indexes_date(self) -> bool {
        self.weekday == crate::scheduler::calendar::day_number_of(self.date) % 7
    }
}

/// Relies on `chrono::Local::now` and its `Datelike`, `Timelike` and
/// `Weekday::num_days_from_monday` accessors: the month is in 1..=12, the day
/// exists in that month, hour, minute and second are in civil range, the
/// weekday index is below 7, and chrono's supported years stay far below this
/// crate's year cap (chrono documents roughly +/-262000). The weekday relies
/// on chrono agreeing with the proleptic Gregorian calendar, whose first day
/// — the first of January of year one, this crate's day number zero — is a
/// Monday.
#[verifier::external_body]
pub(crate) fn local_now() -> (r: Moment)
    ensures
        r.wf(),
        r.date.year < 300000,
        r.weekday_indexes_date(),
{
    let now = chrono::Local::now();
    let date = now.date_naive();
    let time = now.time();
    Moment {
        date: Date { year: date.year() as u32, month: date.month(), day: date.day() },
        time: NaiveTime { hour: time.hour(), minute: time.minute(), second: time.second() },
        weekday: date.weekday().num_days_from_monday(),
    }
}

} // verus!
