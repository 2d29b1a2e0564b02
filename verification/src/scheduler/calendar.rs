//! Proleptic Gregorian calendar arithmetic.
//!
//! A concrete date is a (year, month, day) triple; its mathematical model is
//! the day number: the count of days since the first of January of year one.
//! All date comparisons and all date arithmetic are specified through day
//! numbers, and the day number is proved to order dates exactly as the
//! lexicographic (year, month, day) order does.

use vstd::prelude::*;

verus! {

/// Largest year the calendar arithmetic accepts; far beyond any schedulable
/// date, but small enough that day numbers stay well inside `u32` range.
pub const MAX_YEAR: u32 = 1000000;

/// Whether `y` is a leap year of the proleptic Gregorian calendar.
pub open spec fn is_leap_year(y: int) -> bool {
    (y % 4 == 0 && y % 100 != 0) || y % 400 == 0
}

/// Length in days of month `m` of year `y` (months are 1-based).
pub open spec fn days_in_month_of(y: int, m: int) -> int {
    if m == 2 {
        if is_leap_year(y) {
            29
        } else {
            28
        }
    } else if m == 4 || m == 6 || m == 9 || m == 11 {
        30
    } else {
        31
    }
}

/// Days of year `y` that lie strictly before month `m`.
pub open spec fn days_before_month(y: int, m: int) -> int
    decreases m,
{
    if m <= 1 {
        0
    } else {
        days_before_month(y, m - 1) + days_in_month_of(y, m - 1)
    }
}

/// Length in days of year `y`: the days before a fictitious thirteenth month.
pub open spec fn year_length(y: int) -> int {
    days_before_month(y, 13)
}

/// Days that lie strictly before year `y`, counted from year one.
pub open spec fn days_before_year(y: int) -> int
    decreases y,
{
    if y <= 1 {
        0
    } else {
        days_before_year(y - 1) + year_length(y - 1)
    }
}

/// A concrete calendar date.
#[derive(Clone, Copy, Debug, PartialEq, Eq, Structural)]
pub struct Date {
    pub year: u32,
    pub month: u32,
    pub day: u32,
}

/// The day number of a date: days since the first of January of year one.
pub open spec fn day_number_of(d: Date) -> int {
    days_before_year(d.year as int) + days_before_month(d.year as int, d.month as int) + d.day - 1
}

/// Lexicographic (year, month, day) order on dates.
pub open spec fn date_lt(a: Date, b: Date) -> bool {
    ||| a.year < b.year
    ||| (a.year == b.year && a.month < b.month)
    ||| (a.year == b.year && a.month == b.month && a.day < b.day)
}

impl Date {
    /// A well-formed date: the month exists and the day exists in that month.
    pub open spec fn wf(self) -> bool {
        &&& 1 <= self.year <= MAX_YEAR
        &&& 1 <= self.month <= 12
        &&& 1 <= self.day <= days_in_month_of(self.year as int, self.month as int)
    }

    /// The date `offset` days after `self`, rolling over months and years.
    pub fn add_days(&self, offset: u32) -> (r: Date)
        requires
            self.wf(),
            self.year as int + 1 + offset as int / 365 <= MAX_YEAR as int,
        ensures
            r.wf(),
            day_number_of(r) == day_number_of(*self) + offset as int,
    {
        let ghost target: int = day_number_of(*self) + offset as int;
        let mut y: u32 = self.year;
        let mut m: u32 = self.month;
        let mut rem: u64 = (self.day - 1) as u64 + offset as u64;
        proof {
            lemma_day_number_bounds(*self);
            lemma_days_before_month_nonneg(self.year as int, self.month as int);
        }
        loop
            invariant
                1 <= y,
                1 <= m <= 12,
                days_before_year(y as int) + days_before_month(y as int, m as int) + rem as int
                    == target,
                days_before_month(y as int, m as int) >= 0,
                target < days_before_year(self.year as int + 1) + offset as int,
                self.wf(),
                self.year as int + 1 + offset as int / 365 <= MAX_YEAR as int,
                target == day_number_of(*self) + offset as int,
            decreases rem,
        {
            proof {
                lemma_year_bound_from_day_number(self.year as int, y as int, offset as int);
            }
            let dim = days_in_month(y, m);
            if rem < dim as u64 {
                let r = Date { year: y, month: m, day: rem as u32 + 1 };
                return r;
            } else {
                rem = rem - dim as u64;
                if m == 12 {
                    proof {
                        assert(days_before_month(y as int, 13) == days_before_month(y as int, 12)
                            + days_in_month_of(y as int, 12));
                        assert(days_before_year(y as int + 1) == days_before_year(y as int)
                            + year_length(y as int));
                        lemma_year_bound_from_day_number(
                            self.year as int,
                            y as int + 1,
                            offset as int,
                        );
                    }
                    m = 1;
                    y = y + 1;
                } else {
                    proof {
                        lemma_days_before_month_nonneg(y as int, m as int + 1);
                    }
                    m = m + 1;
                }
            }
        }
    }
}

impl Date {
    /// Executable day number, equal to the model `day_number_of`.
    pub fn day_number(&self) -> (r: u64)
        requires
            self.wf(),
        ensures
            r as int == day_number_of(*self),
    {
        let mut y: u32 = 1;
        let mut acc: u64 = 0;
        while y < self.year
            invariant
                1 <= y <= self.year,
                acc as int == days_before_year(y as int),
                self.wf(),
            decreases self.year - y,
        {
            proof {
                lemma_days_before_year_growth(1, y as int);
                lemma_year_length_exact(y as int);
            }
            let leap = (y % 4 == 0 && y % 100 != 0) || y % 400 == 0;
            acc = acc + if leap {
                366
            } else {
                365
            };
            y = y + 1;
        }
        let mut m: u32 = 1;
        while m < self.month
            invariant
                1 <= m <= self.month,
                self.wf(),
                y == self.year,
                acc as int == days_before_year(self.year as int) + days_before_month(
                    self.year as int,
                    m as int,
                ),
                acc as int <= days_before_year(self.year as int) + 366,
            decreases self.month - m,
        {
            proof {
                lemma_days_before_year_growth(1, self.year as int);
                lemma_days_before_month_monotone(self.year as int, m as int + 1, 13);
                lemma_year_length(self.year as int);
            }
            acc = acc + days_in_month(self.year, m) as u64;
            m = m + 1;
        }
        proof {
            lemma_days_before_year_growth(1, self.year as int);
            lemma_days_before_month_monotone(self.year as int, self.month as int, 13);
            lemma_year_length(self.year as int);
            lemma_days_before_month_nonneg(self.year as int, self.month as int);
        }
        acc + (self.day - 1) as u64
    }
}

/// Executable month length, equal to its specification.
pub fn days_in_month(y: u32, m: u32) -> (r: u32)
    requires
        1 <= m <= 12,
    ensures
        r as int == days_in_month_of(y as int, m as int),
        28 <= r <= 31,
{
    if m == 2 {
        if (y % 4 == 0 && y % 100 != 0) || y % 400 == 0 {
            29
        } else {
            28
        }
    } else if m == 4 || m == 6 || m == 9 || m == 11 {
        30
    } else {
        31
    }
}

/// `days_before_month` is non-negative.
pub proof fn lemma_days_before_month_nonneg(y: int, m: int)
    ensures
        days_before_month(y, m) >= 0,
    decreases m,
{
    if m > 1 {
        lemma_days_before_month_nonneg(y, m - 1);
    }
}

/// `days_before_month` grows with the month.
pub proof fn lemma_days_before_month_monotone(y: int, m1: int, m2: int)
    requires
        m1 <= m2,
    ensures
        days_before_month(y, m1) <= days_before_month(y, m2),
    decreases m2 - m1,
{
    if m1 < m2 {
        lemma_days_before_month_monotone(y, m1, m2 - 1);
    }
}

/// Every year is 365 or 366 days long.
pub proof fn lemma_year_length(y: int)
    ensures
        365 <= year_length(y) <= 366,
{
    reveal_with_fuel(days_before_month, 13);
}

/// A year is 366 days long exactly when it is a leap year.
pub proof fn lemma_year_length_exact(y: int)
    ensures
        year_length(y) == if is_leap_year(y) {
            366int
        } else {
            365int
        },
{
    reveal_with_fuel(days_before_month, 13);
}

/// Between two years lie at least 365 and at most 366 days per year.
pub proof fn lemma_days_before_year_growth(y1: int, y2: int)
    requires
        1 <= y1 <= y2,
    ensures
        days_before_year(y1) + 365 * (y2 - y1) <= days_before_year(y2),
        days_before_year(y2) <= days_before_year(y1) + 366 * (y2 - y1),
    decreases y2 - y1,
{
    if y1 < y2 {
        lemma_days_before_year_growth(y1, y2 - 1);
        lemma_year_length(y2 - 1);
    }
}

/// A well-formed date's day number lies inside its year.
pub proof fn lemma_day_number_bounds(d: Date)
    requires
        d.wf(),
    ensures
        days_before_year(d.year as int) <= day_number_of(d),
        day_number_of(d) < days_before_year(d.year as int + 1),
{
    lemma_days_before_month_nonneg(d.year as int, d.month as int);
    assert(days_before_month(d.year as int, d.month as int + 1) == days_before_month(
        d.year as int,
        d.month as int,
    ) + days_in_month_of(d.year as int, d.month as int));
    lemma_days_before_month_monotone(d.year as int, d.month as int + 1, 13);
    assert(days_before_year(d.year as int + 1) == days_before_year(d.year as int) + year_length(
        d.year as int,
    ));
}

/// If year `y`'s days-before count stays under the target day number reached
/// from a date in year `y0` plus `offset` days, then `y` is bounded, with
/// slack for one more year step.
proof fn lemma_year_bound_from_day_number(y0: int, y: int, offset: int)
    requires
        1 <= y0,
        1 <= y,
        0 <= offset,
        y0 + 1 + offset / 365 <= MAX_YEAR as int,
        days_before_year(y) < days_before_year(y0 + 1) + offset,
    ensures
        y <= MAX_YEAR as int,
{
    if y > y0 + 1 {
        lemma_days_before_year_growth(y0 + 1, y);
        assert(365 * (y - y0 - 1) < offset);
        assert(y - y0 - 1 <= offset / 365) by (nonlinear_arith)
            requires
                365 * (y - y0 - 1) < offset,
                0 <= offset,
        ;
    }
}

/// Day-number order coincides with lexicographic (year, month, day) order.
pub proof fn lemma_day_number_orders_dates(a: Date, b: Date)
    requires
        a.wf(),
        b.wf(),
    ensures
        (day_number_of(a) < day_number_of(b)) <==> date_lt(a, b),
        (day_number_of(a) == day_number_of(b)) <==> (a.year == b.year && a.month == b.month
            && a.day == b.day),
{
    if date_lt(a, b) {
        lemma_date_lt_day_number(a, b);
    }
    if date_lt(b, a) {
        lemma_date_lt_day_number(b, a);
    }
}

/// A lexicographically smaller well-formed date has a smaller day number.
proof fn lemma_date_lt_day_number(a: Date, b: Date)
    requires
        a.wf(),
        b.wf(),
        date_lt(a, b),
    ensures
        day_number_of(a) < day_number_of(b),
{
    let ay = a.year as int;
    let am = a.month as int;
    let by = b.year as int;
    let bm = b.month as int;
    lemma_days_before_month_nonneg(ay, am);
    lemma_days_before_month_nonneg(by, bm);
    assert(days_before_month(ay, am + 1) == days_before_month(ay, am) + days_in_month_of(ay, am));
    if a.year < b.year {
        lemma_days_before_month_monotone(ay, am + 1, 13);
        assert(days_before_year(ay + 1) == days_before_year(ay) + year_length(ay));
        lemma_days_before_year_growth(ay + 1, by);
    } else if a.month < b.month {
        lemma_days_before_month_monotone(ay, am + 1, bm);
    }
}

/// A civil time of day: hour, minute and second, no timezone.
#[derive(Clone, Copy, Debug, PartialEq, Eq, Structural)]
pub struct NaiveTime {
    pub hour: u32,
    pub minute: u32,
    pub second: u32,
}

impl NaiveTime {
    /// A well-formed time of day.
    pub open spec fn wf(self) -> bool {
        self.hour < 24 && self.minute < 60 && self.second < 60
    }

    /// The model of a time of day: seconds since midnight.
    pub open spec fn seconds_of_day(self) -> int {
        self.hour * 3600 + self.minute * 60 + self.second
    }

    /// A time of day from hour, minute and second; `None` iff out of range.
    pub fn from_hms_opt(hour: u32, minute: u32, second: u32) -> (r: Option<NaiveTime>)
        ensures
            r is Some <==> (hour < 24 && minute < 60 && second < 60),
            r matches Some(t) ==> t == (NaiveTime { hour, minute, second }) && t.wf(),
    {
        if hour < 24 && minute < 60 && second < 60 {
            Some(NaiveTime { hour, minute, second })
        } else {
            None
        }
    }

    /// The time of day `seconds` seconds after midnight; inverse of
    /// `seconds`. This is the stored form of a time of day in the catalog.
    pub fn from_day_seconds(seconds: u32) -> (r: NaiveTime)
        requires
            seconds < 86400,
        ensures
            r.wf(),
            r.seconds_of_day() == seconds,
    {
        let hour = seconds / 3600;
        let minute = (seconds % 3600) / 60;
        let second = seconds % 60;
        proof {
            assert(hour < 24 && minute < 60 && second < 60 && hour * 3600 + minute * 60 + second
                == seconds) by (nonlinear_arith)
                requires
                    seconds < 86400,
                    hour == seconds / 3600,
                    minute == (seconds % 3600) / 60,
                    second == seconds % 60,
            ;
        }
        NaiveTime { hour, minute, second }
    }

    /// Executable seconds since midnight, equal to the model.
    pub fn seconds(&self) -> (r: u32)
        requires
            self.wf(),
        ensures
            r as int == self.seconds_of_day(),
    {
        self.hour * 3600 + self.minute * 60 + self.second
    }
}

/// Strict order on composed (date, time) instants, by day number then time.
pub open spec fn datetime_lt(d1: Date, t1: NaiveTime, d2: Date, t2: NaiveTime) -> bool {
    ||| day_number_of(d1) < day_number_of(d2)
    ||| (day_number_of(d1) == day_number_of(d2) && t1.seconds_of_day() < t2.seconds_of_day())
}

/// Non-strict order on composed (date, time) instants.
pub open spec fn datetime_le(d1: Date, t1: NaiveTime, d2: Date, t2: NaiveTime) -> bool {
    ||| datetime_lt(d1, t1, d2, t2)
    ||| (day_number_of(d1) == day_number_of(d2) && t1.seconds_of_day() == t2.seconds_of_day())
}

/// Executable comparison of composed instants, equal to `datetime_le`.
pub fn datetime_is_le(d1: &Date, t1: &NaiveTime, d2: &Date, t2: &NaiveTime) -> (r: bool)
    requires
        d1.wf(),
        d2.wf(),
        t1.wf(),
        t2.wf(),
    ensures
        r == datetime_le(*d1, *t1, *d2, *t2),
{
    proof {
        lemma_day_number_orders_dates(*d1, *d2);
    }
    if d1.year != d2.year {
        d1.year < d2.year
    } else if d1.month != d2.month {
        d1.month < d2.month
    } else if d1.day != d2.day {
        d1.day < d2.day
    } else {
        t1.seconds() <= t2.seconds()
    }
}

} // verus!
