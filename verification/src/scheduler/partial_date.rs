//! A possibly under-specified calendar date and its resolution to the next
//! concrete date.
//!
//! Any subset of {year, month, day} may be given. Resolution against a clock
//! reading `now` fills the missing components from `now`, then picks the
//! smallest matching date whose composed (date, time) instant is strictly in
//! the future — provided the given components do not already lie in the past,
//! in which case the resolved instant is simply the stated one.

use vstd::prelude::*;

use crate::scheduler::calendar::Date;
use crate::scheduler::calendar::NaiveTime;
use crate::scheduler::calendar::MAX_YEAR;
use crate::scheduler::calendar::datetime_is_le;
use crate::scheduler::calendar::datetime_lt;
use crate::scheduler::calendar::day_number_of;
use crate::scheduler::calendar::days_before_month;
use crate::scheduler::calendar::days_before_year;
use crate::scheduler::clock::Moment;
use crate::scheduler::clock::local_now;
use crate::scheduler::day::Day;
use crate::scheduler::day::weekday_index_of;
use crate::scheduler::month::Month;
use crate::scheduler::month::month_ordinal;

verus! {

/// A calendar date pattern with any subset of year, month and day specified.
#[derive(Clone, Copy, Debug, PartialEq, Eq, Structural)]
pub struct PartialDate {
    pub year: Option<u32>,
    pub month: Option<Month>,
    pub day: Option<Day>,
}

/// An ordinal day clamped into 1 to 31; named weekdays pass through.
pub open spec fn clamp_day(day: Day) -> Day {
    match day {
        Day::Ordinal(x) => if x > 31 {
            Day::Ordinal(31)
        } else if x == 0 {
            Day::Ordinal(1)
        } else {
            day
        },
        _ => day,
    }
}

impl PartialDate {
    /// A well-formed pattern: a stored ordinal day stays inside 1 to 31.
    pub open spec fn wf(self) -> bool {
        match self.day {
            Some(d) => d.wf(),
            None => true,
        }
    }

    /// Whether this pattern can be resolved against the clock reading `now`:
    /// the pattern is well formed and every year in play leaves headroom
    /// below the calendar's year cap.
    pub open spec fn resolvable(self, now: Moment) -> bool {
        &&& self.wf()
        &&& now.wf()
        &&& now.date.year < MAX_YEAR
        &&& match self.year {
            Some(y) => 1 <= y < MAX_YEAR,
            None => true,
        }
    }

    /// The year the pattern resolves to: the stated one, else `now`'s.
    pub open spec fn resolved_year(self, now: Moment) -> int {
        match self.year {
            Some(y) => y as int,
            None => now.date.year as int,
        }
    }

    /// The month the pattern resolves to: the stated one, else `now`'s.
    pub open spec fn resolved_month(self, now: Moment) -> int {
        match self.month {
            Some(m) => month_ordinal(m),
            None => now.date.month as int,
        }
    }

    /// The day-of-month position the pattern aims at, before any past-bump:
    /// a stated ordinal directly; a stated weekday as `now`'s day plus the
    /// Monday-based modular distance from `now`'s weekday; else `now`'s day.
    pub open spec fn resolved_position(self, now: Moment) -> int {
        match self.day {
            None => now.date.day as int,
            Some(Day::Ordinal(x)) => x as int,
            Some(d) => now.date.day as int + ((weekday_index_of(d) + 7 - now.weekday) % 7),
        }
    }

    /// Day number of the candidate date: the first of the resolved month,
    /// advanced to the resolved position.
    pub open spec fn candidate_day_number(self, now: Moment) -> int {
        days_before_year(self.resolved_year(now)) + days_before_month(
            self.resolved_year(now),
            self.resolved_month(now),
        ) + self.resolved_position(now) - 1
    }

    /// How far a candidate that is not in the future advances: a whole week
    /// for a weekday pattern (staying on the requested weekday), one day
    /// otherwise.
    pub open spec fn bump_days(self) -> int {
        match self.day {
            Some(d) => if d.is_weekday() {
                7
            } else {
                1
            },
            None => 1,
        }
    }

    /// The day number the pattern resolves to at time-of-day `time` against
    /// `now`: the candidate if its composed instant is strictly in the
    /// future, else the candidate advanced by the bump.
    pub open spec fn resolved_day_number(self, time: NaiveTime, now: Moment) -> int {
        let c = self.candidate_day_number(now);
        if c > day_number_of(now.date) || (c == day_number_of(now.date) && time.seconds_of_day()
            > now.time.seconds_of_day()) {
            c
        } else {
            c + self.bump_days()
        }
    }

    /// A pattern with only the year given.
    pub fn new_y(year: u32) -> (r: PartialDate)
        ensures
            r == (PartialDate { year: Some(Self::spec_verify_year(year)), month: None, day: None }),
            r.wf(),
    {
        PartialDate { year: Some(Self::verify_year(year)), month: None, day: None }
    }

    /// A pattern with only the month given.
    pub fn new_m(month: Month) -> (r: PartialDate)
        ensures
            r == (PartialDate { year: None, month: Some(month), day: None }),
            r.wf(),
    {
        PartialDate { year: None, month: Some(month), day: None }
    }

    /// A pattern with only the day given.
    pub fn new_d(day: Day) -> (r: PartialDate)
        ensures
            r == (PartialDate { year: None, month: None, day: Some(clamp_day(day)) }),
            r.wf(),
    {
        PartialDate { year: None, month: None, day: Some(Self::verify_day(day)) }
    }

    /// A pattern with year and month given.
    pub fn new_ym(year: u32, month: Month) -> (r: PartialDate)
        ensures
            r == (PartialDate {
                year: Some(Self::spec_verify_year(year)),
                month: Some(month),
                day: None,
            }),
            r.wf(),
    {
        PartialDate { year: Some(Self::verify_year(year)), month: Some(month), day: None }
    }

    /// A pattern with year and day given.
    pub fn new_yd(year: u32, day: Day) -> (r: PartialDate)
        ensures
            r == (PartialDate {
                year: Some(Self::spec_verify_year(year)),
                month: None,
                day: Some(clamp_day(day)),
            }),
            r.wf(),
    {
        PartialDate {
            year: Some(Self::verify_year(year)),
            month: None,
            day: Some(Self::verify_day(day)),
        }
    }

    /// A pattern with month and day given.
    pub fn new_md(month: Month, day: Day) -> (r: PartialDate)
        ensures
            r == (PartialDate { year: None, month: Some(month), day: Some(clamp_day(day)) }),
            r.wf(),
    {
        PartialDate { year: None, month: Some(month), day: Some(Self::verify_day(day)) }
    }

    /// A fully specified pattern.
    pub fn new_ymd(year: u32, month: Month, day: Day) -> (r: PartialDate)
        ensures
            r == (PartialDate {
                year: Some(Self::spec_verify_year(year)),
                month: Some(month),
                day: Some(clamp_day(day)),
            }),
            r.wf(),
    {
        PartialDate {
            year: Some(Self::verify_year(year)),
            month: Some(month),
            day: Some(Self::verify_day(day)),
        }
    }

    /// What `verify_year` returns: the year unchanged. A year outside the
    /// conventional 2000 to 9999 range is tolerated, not rejected.
    pub open spec fn spec_verify_year(year: u32) -> u32 {
        year
    }

    /// Accept a year as given; out-of-range years are the operator's to log.
    pub fn verify_year(year: u32) -> (r: u32)
        ensures
            r == Self::spec_verify_year(year),
    {
        year
    }

    /// Clamp an ordinal day into 1 to 31; weekdays pass through.
    pub fn verify_day(day: Day) -> (r: Day)
        ensures
            r == clamp_day(day),
            r.wf(),
    {
        match day {
            Day::Ordinal(x) => {
                if x > 31 {
                    Day::Ordinal(31)
                } else if x == 0 {
                    Day::Ordinal(1)
                } else {
                    day
                }
            },
            _ => day,
        }
    }

    /// Resolve the pattern against the clock reading `now`.
    ///
    /// Missing components default to `now`'s; a weekday day aims at the next
    /// date with that weekday (assuming `now.weekday` indexes `now.date`);
    /// and if the composed (date, `time`) instant is not strictly after
    /// `now`, the date advances by the bump — seven days for a weekday
    /// pattern, one day otherwise. Whenever the candidate date does not lie
    /// before today, the returned composed instant is strictly in the
    /// future.
    pub fn next_valide_date(&self, time: &NaiveTime, now: &Moment) -> (r: Date)
        requires
            self.resolvable(*now),
            time.wf(),
        ensures
            r.wf(),
            day_number_of(r) == self.resolved_day_number(*time, *now),
            self.candidate_day_number(*now) >= day_number_of(now.date) ==> datetime_lt(
                now.date,
                now.time,
                r,
                *time,
            ),
    {
        let year: u32 = match self.year {
            Some(y) => y,
            None => now.date.year,
        };
        let month: u32 = match self.month {
            Some(m) => m.into_ordinal(),
            None => now.date.month,
        };
        let mut bump: u32 = 1;
        let position: u32 = match self.day {
            None => now.date.day,
            Some(d) => match d {
                Day::Ordinal(x) => x,
                w => {
                    bump = 7;
                    now.date.day + (w.weekday_index() + 7 - now.weekday) % 7
                },
            },
        };
        let first = Date { year, month, day: 1 };
        let candidate = first.add_days(position - 1);
        if datetime_is_le(&candidate, time, &now.date, &now.time) {
            first.add_days(position - 1 + bump)
        } else {
            candidate
        }
    }

    /// A pattern that names only a weekday resolves onto a date with exactly
    /// that weekday, whenever the clock reading's weekday really indexes its
    /// date.
    pub proof fn lemma_weekday_resolution(self, d: Day, time: NaiveTime, now: Moment)
        requires
            self.day == Some(d),
            d.is_weekday(),
            self.year is None,
            self.month is None,
            now.weekday_indexes_date(),
        ensures
            self.resolved_day_number(time, now) % 7 == weekday_index_of(d),
    {
        let nd = day_number_of(now.date);
        let nw = now.weekday as int;
        let wi = weekday_index_of(d);
        let off = (wi + 7 - nw) % 7;
        assert(self.resolved_position(now) == now.date.day + off);
        assert(self.candidate_day_number(now) == nd + off);
        vstd::arithmetic::div_mod::lemma_mod_division_less_than_divisor(nd, 7);
        vstd::arithmetic::div_mod::lemma_add_mod_noop_right(nd, wi + 7 - nw, 7);
        vstd::arithmetic::div_mod::lemma_fundamental_div_mod(nd, 7);
        let q = nd / 7;
        assert(nd + (wi + 7 - nw) == 7 * (q + 1) + wi) by (nonlinear_arith)
            requires
                nd == 7 * q + nw,
        ;
        vstd::arithmetic::div_mod::lemma_fundamental_div_mod_converse_mod(
            nd + (wi + 7 - nw),
            7,
            q + 1,
            wi,
        );
        assert((nd + off) % 7 == wi);
        vstd::arithmetic::div_mod::lemma_mod_add_multiples_vanish(nd + off, 7);
        assert(self.bump_days() == 7);
    }

    /// Resolve the pattern against the wall clock read now.
    pub fn next_valide_date_from_now(&self, time: &NaiveTime) -> (r: Date)
        requires
            self.wf(),
            time.wf(),
            match self.year {
                Some(y) => 1 <= y < MAX_YEAR,
                None => true,
            },
        ensures
            r.wf(),
            exists|now: Moment|
                {
                    &&& self.resolvable(now)
                    &&& now.weekday_indexes_date()
                    &&& day_number_of(r) == self.resolved_day_number(*time, now)
                },
    {
        let now = local_now();
        let r = self.next_valide_date(time, &now);
        proof {
            assert(self.resolvable(now) && now.weekday_indexes_date() && day_number_of(r)
                == self.resolved_day_number(*time, now));
        }
        r
    }
}

} // verus!
