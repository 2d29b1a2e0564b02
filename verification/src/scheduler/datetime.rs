//! The one-shot datetime trigger: a partial date and a time of day.
//!
//! A datetime trigger fires once: it resolves its partial date against the
//! wall clock, sleeps until the composed instant, emits the current
//! generation, and terminates. The sleeping and the channel send are the
//! runtime's; resolving the target and computing the sleep length are
//! verified here.

use vstd::prelude::*;

use crate::scheduler::calendar::Date;
use crate::scheduler::calendar::NaiveTime;
use crate::scheduler::calendar::datetime_lt;
use crate::scheduler::calendar::day_number_of;
use crate::scheduler::calendar::lemma_day_number_bounds;
use crate::scheduler::calendar::lemma_days_before_year_growth;
use crate::scheduler::clock::Moment;
use crate::scheduler::partial_date::PartialDate;

verus! {

/// A one-shot trigger: fires once at the next instant matching its pattern.
#[derive(Clone, Copy, Debug, PartialEq, Eq, Structural)]
pub struct DatetimeTrigger {
    pub date: PartialDate,
    pub time: NaiveTime,
}

impl DatetimeTrigger {
    /// A well-formed datetime trigger.
    pub open spec fn wf(self) -> bool {
        self.date.wf() && self.time.wf()
    }

    /// A datetime trigger from a date pattern and a time of day.
    pub fn new(date: PartialDate, time: NaiveTime) -> (r: DatetimeTrigger)
        ensures
            r == (DatetimeTrigger { date, time }),
    {
        DatetimeTrigger { date, time }
    }
}

/// The model of a composed (date, time) instant: seconds since the calendar's
/// origin.
pub open spec fn datetime_seconds(d: Date, t: NaiveTime) -> int {
    day_number_of(d) * 86400 + t.seconds_of_day()
}

/// Seconds to sleep from `now` until the composed (target, time) instant;
/// zero — fire immediately — if that instant is not in the future.
pub fn seconds_until(target: &Date, time: &NaiveTime, now: &Moment) -> (r: u64)
    requires
        target.wf(),
        time.wf(),
        now.wf(),
    ensures
        r as int == if datetime_lt(now.date, now.time, *target, *time) {
            datetime_seconds(*target, *time) - datetime_seconds(now.date, now.time)
        } else {
            0
        },
{
    let target_days = target.day_number();
    let now_days = now.date.day_number();
    let ghost td = day_number_of(*target);
    let ghost nd = day_number_of(now.date);
    let ghost ts = time.seconds_of_day();
    let ghost ns = now.time.seconds_of_day();
    proof {
        lemma_day_number_bounds(*target);
        lemma_days_before_year_growth(1, target.year as int + 1);
        lemma_day_number_bounds(now.date);
        lemma_days_before_year_growth(1, now.date.year as int + 1);
        assert(td * 86400 + 86400 < 0x8000_0000_0000_0000 && nd * 86400 + 86400
            < 0x8000_0000_0000_0000) by (nonlinear_arith)
            requires
                0 <= td <= 366_000_366,
                0 <= nd <= 366_000_366,
        ;
        assert((td * 86400 + ts < nd * 86400 + ns <==> (td < nd || (td == nd && ts < ns))) && (nd
            * 86400 + ns < td * 86400 + ts <==> (nd < td || (nd == td && ns < ts))))
            by (nonlinear_arith)
            requires
                0 <= ts < 86400,
                0 <= ns < 86400,
        ;
    }
    let target_secs = target_days * 86400 + time.seconds() as u64;
    let now_secs = now_days * 86400 + now.time.seconds() as u64;
    if now_secs < target_secs {
        target_secs - now_secs
    } else {
        0
    }
}

} // verus!
