use sequoia::scheduler::calendar::Date;
use sequoia::scheduler::calendar::NaiveTime;
use sequoia::scheduler::clock::Moment;
use sequoia::scheduler::day::Day;
use sequoia::scheduler::day::as_db_value;
use sequoia::scheduler::day::from_db_value;
use sequoia::scheduler::month::Month;
use sequoia::scheduler::partial_date::PartialDate;

fn moment(year: u32, month: u32, day: u32, weekday: u32, h: u32, m: u32, s: u32) -> Moment {
    Moment {
        date: Date { year, month, day },
        time: NaiveTime { hour: h, minute: m, second: s },
        weekday,
    }
}

fn hms(h: u32, m: u32, s: u32) -> NaiveTime {
    NaiveTime::from_hms_opt(h, m, s).unwrap()
}

#[test]
fn year_only_resolves_to_today_when_time_is_still_ahead() {
    // Sunday 2024-03-10 12:00:00; trigger at 12:00:05 the same day
    let now = moment(2024, 3, 10, 6, 12, 0, 0);
    let r = PartialDate::new_y(2024).next_valide_date(&hms(12, 0, 5), &now);
    assert_eq!(r, Date { year: 2024, month: 3, day: 10 });
}

#[test]
fn year_only_resolves_to_tomorrow_when_time_has_passed() {
    let now = moment(2024, 3, 10, 6, 12, 0, 0);
    let r = PartialDate::new_y(2024).next_valide_date(&hms(11, 59, 59), &now);
    assert_eq!(r, Date { year: 2024, month: 3, day: 11 });
}

#[test]
fn weekday_resolves_to_next_matching_day() {
    // now = Sunday 2024-03-10 09:00, Monday at 08:00 fires the next day
    let now = moment(2024, 3, 10, 6, 9, 0, 0);
    let r = PartialDate::new_d(Day::Monday).next_valide_date(&hms(8, 0, 0), &now);
    assert_eq!(r, Date { year: 2024, month: 3, day: 11 });
}

#[test]
fn same_weekday_with_time_later_today_fires_today() {
    // now = Monday 2024-03-11 09:00, Monday at 10:00 fires today
    let now = moment(2024, 3, 11, 0, 9, 0, 0);
    let r = PartialDate::new_d(Day::Monday).next_valide_date(&hms(10, 0, 0), &now);
    assert_eq!(r, Date { year: 2024, month: 3, day: 11 });
}

#[test]
fn same_weekday_with_time_earlier_today_fires_in_a_week() {
    // now = Monday 2024-03-11 09:00, Monday at 08:00 fires next Monday
    let now = moment(2024, 3, 11, 0, 9, 0, 0);
    let r = PartialDate::new_d(Day::Monday).next_valide_date(&hms(8, 0, 0), &now);
    assert_eq!(r, Date { year: 2024, month: 3, day: 18 });
}

#[test]
fn ordinal_day_beyond_month_end_rolls_into_next_month() {
    // ordinal 31 in 30-day April: the candidate rolls over to May 1st
    let now = moment(2024, 4, 10, 2, 9, 0, 0);
    let r = PartialDate::new_d(Day::Ordinal(31)).next_valide_date(&hms(8, 0, 0), &now);
    assert_eq!(r, Date { year: 2024, month: 5, day: 1 });
}

#[test]
fn ordinal_day_is_clamped_at_construction() {
    let p = PartialDate::new_d(Day::Ordinal(45));
    assert_eq!(p, PartialDate { year: None, month: None, day: Some(Day::Ordinal(31)) });
    let p = PartialDate::new_d(Day::Ordinal(0));
    assert_eq!(p, PartialDate { year: None, month: None, day: Some(Day::Ordinal(1)) });
    let p = PartialDate::new_d(Day::Ordinal(17));
    assert_eq!(p, PartialDate { year: None, month: None, day: Some(Day::Ordinal(17)) });
}

#[test]
fn constructors_fill_exactly_the_stated_fields() {
    assert_eq!(
        PartialDate::new_m(Month::May),
        PartialDate { year: None, month: Some(Month::May), day: None }
    );
    assert_eq!(
        PartialDate::new_ym(2024, Month::May),
        PartialDate { year: Some(2024), month: Some(Month::May), day: None }
    );
    assert_eq!(
        PartialDate::new_yd(2024, Day::Friday),
        PartialDate { year: Some(2024), month: None, day: Some(Day::Friday) }
    );
    assert_eq!(
        PartialDate::new_md(Month::May, Day::Ordinal(5)),
        PartialDate { year: None, month: Some(Month::May), day: Some(Day::Ordinal(5)) }
    );
    assert_eq!(
        PartialDate::new_ymd(2024, Month::May, Day::Ordinal(5)),
        PartialDate { year: Some(2024), month: Some(Month::May), day: Some(Day::Ordinal(5)) }
    );
    assert_eq!(PartialDate::verify_year(1999), 1999);
    assert_eq!(PartialDate::verify_day(Day::Ordinal(32)), Day::Ordinal(31));
    assert_eq!(PartialDate::verify_day(Day::Tuesday), Day::Tuesday);
}

#[test]
fn explicit_month_and_ordinal_resolve_within_that_month() {
    // now = Wednesday 2024-04-10 09:00; May 5th at 08:00
    let now = moment(2024, 4, 10, 2, 9, 0, 0);
    let p = PartialDate::new_md(Month::May, Day::Ordinal(5));
    let r = p.next_valide_date(&hms(8, 0, 0), &now);
    assert_eq!(r, Date { year: 2024, month: 5, day: 5 });
}

#[test]
fn resolution_against_the_real_clock_keeps_the_stated_year() {
    let p = PartialDate::new_y(2024);
    let r = p.next_valide_date_from_now(&hms(12, 0, 0));
    // the pattern pins the year; the advance past a stale instant can at
    // most roll into the following year
    assert!(r.year == 2024 || r.year == 2025);
    assert!((1..=12).contains(&r.month));
    assert!((1..=31).contains(&r.day));
}

#[test]
fn month_ordinals_round_trip() {
    for m in 1..=12u32 {
        assert_eq!(Month::from_ordinal(m).into_ordinal(), m);
    }
    assert_eq!(Month::from_ordinal(1).into_ordinal(), 1);
    assert_eq!(Month::from_ordinal(12).into_ordinal(), 12);
}

#[test]
fn day_db_values_round_trip() {
    let days = [
        Day::Monday,
        Day::Tuesday,
        Day::Wednesday,
        Day::Thursday,
        Day::Friday,
        Day::Saturday,
        Day::Sunday,
        Day::Ordinal(1),
        Day::Ordinal(17),
        Day::Ordinal(31),
    ];
    for d in days {
        assert_eq!(from_db_value(as_db_value(d)), d);
    }
    assert_eq!(as_db_value(Day::Monday), 1);
    assert_eq!(as_db_value(Day::Sunday), 7);
    assert_eq!(as_db_value(Day::Ordinal(1)), 8);
    assert_eq!(as_db_value(Day::Ordinal(31)), 38);
}
