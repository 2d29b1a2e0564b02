use sequoia::scheduler::calendar::Date;
use sequoia::scheduler::calendar::NaiveTime;
use sequoia::scheduler::clock::Moment;
use sequoia::scheduler::datetime::DatetimeTrigger;
use sequoia::scheduler::datetime::seconds_until;
use sequoia::scheduler::partial_date::PartialDate;

fn moment(year: u32, month: u32, day: u32, weekday: u32, h: u32, m: u32, s: u32) -> Moment {
    Moment {
        date: Date { year, month, day },
        time: NaiveTime { hour: h, minute: m, second: s },
        weekday,
    }
}

#[test]
fn a_trigger_keeps_its_pattern_and_time() {
    let date = PartialDate::new_y(2024);
    let time = NaiveTime::from_hms_opt(16, 1, 40).unwrap();
    let t = DatetimeTrigger::new(date, time);
    assert_eq!(t.date, date);
    assert_eq!(t.time, time);
}

#[test]
fn sleep_length_is_the_distance_to_the_target() {
    // 2024-03-10 12:00:00 -> same day 12:00:05 is five seconds away
    let now = moment(2024, 3, 10, 6, 12, 0, 0);
    let target = Date { year: 2024, month: 3, day: 10 };
    let t = NaiveTime::from_hms_opt(12, 0, 5).unwrap();
    assert_eq!(seconds_until(&target, &t, &now), 5);

    // next day, one hour earlier: a day minus an hour
    let target = Date { year: 2024, month: 3, day: 11 };
    let t = NaiveTime::from_hms_opt(11, 0, 0).unwrap();
    assert_eq!(seconds_until(&target, &t, &now), 86400 - 3600);
}

#[test]
fn a_target_in_the_past_means_fire_immediately() {
    let now = moment(2024, 3, 10, 6, 12, 0, 0);
    let target = Date { year: 2024, month: 3, day: 10 };
    let t = NaiveTime::from_hms_opt(11, 59, 59).unwrap();
    assert_eq!(seconds_until(&target, &t, &now), 0);
    let t = NaiveTime::from_hms_opt(12, 0, 0).unwrap();
    assert_eq!(seconds_until(&target, &t, &now), 0);
    let earlier = Date { year: 2020, month: 1, day: 1 };
    assert_eq!(seconds_until(&earlier, &t, &now), 0);
}

#[test]
fn resolution_and_sleep_compose_for_a_one_shot() {
    // a one-shot with a year pattern, five seconds ahead
    let now = moment(2024, 3, 10, 6, 12, 0, 0);
    let pattern = PartialDate::new_y(2024);
    let time = NaiveTime::from_hms_opt(12, 0, 5).unwrap();
    let target = pattern.next_valide_date(&time, &now);
    assert_eq!(seconds_until(&target, &time, &now), 5);
}
