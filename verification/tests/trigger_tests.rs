use sequoia::scheduler::calendar::NaiveTime;
use sequoia::scheduler::counter::Counter;
use sequoia::scheduler::counter::CounterRun;
use sequoia::scheduler::counter::CounterTrigger;
use sequoia::scheduler::datetime::DatetimeTrigger;
use sequoia::scheduler::partial_date::PartialDate;
use sequoia::scheduler::trigger::Trigger;

fn one_shot() -> DatetimeTrigger {
    DatetimeTrigger::new(
        PartialDate::new_y(2024),
        NaiveTime::from_hms_opt(12, 0, 5).unwrap(),
    )
}

#[test]
fn receiver_is_handed_out_exactly_once() {
    let mut t = Trigger::from(one_shot());
    assert!(t.receiver().is_some());
    assert!(t.receiver().is_none());
    assert!(t.receiver().is_none());
}

#[test]
fn generation_counts_forwards_and_fires() {
    let mut t = Trigger::from(one_shot());
    assert_eq!(t.generation(), 0);
    t.forward_generation(10);
    assert_eq!(t.generation(), 10);
    t.forward_generation(3);
    assert_eq!(t.generation(), 13);
    let emitted = t.fire_generation();
    assert_eq!(emitted, 13);
    assert_eq!(t.generation(), 14);
}

#[test]
fn generation_observations_never_decrease() {
    let mut t = Trigger::from(one_shot());
    let mut last = t.generation();
    t.forward_generation(5);
    for step in 0..20u64 {
        if step % 3 == 0 {
            t.forward_generation(step);
        } else {
            t.fire_generation();
        }
        let now = t.generation();
        assert!(now >= last);
        last = now;
    }
}

#[test]
fn generation_accounting_sums_forwards_and_fires() {
    // interleave forwards of 3 and 10 with four fires:
    // final = initial + (3 + 10) + 4
    let mut t = Trigger::from(one_shot());
    t.forward_generation(7);
    let initial = t.generation();
    t.fire_generation();
    t.forward_generation(3);
    t.fire_generation();
    t.fire_generation();
    t.forward_generation(10);
    t.fire_generation();
    assert_eq!(t.generation(), initial + 3 + 10 + 4);
}

#[test]
fn finite_counter_emits_exactly_n_generations() {
    let inner = Trigger::from(one_shot());
    let mut parent = Trigger::from(CounterTrigger::new(Counter::Finit(3), inner));
    let mut run = CounterRun::begin(Counter::Finit(3));
    let mut log: Vec<u64> = Vec::new();
    while run.should_continue() {
        let emitted = run.child_fired(&mut parent);
        log.push(emitted);
    }
    assert_eq!(log, vec![0, 1, 2]);
    assert_eq!(parent.generation(), 3);
    assert!(!run.should_continue());
}

#[test]
fn forward_offset_shifts_every_emission() {
    let inner = Trigger::from(one_shot());
    let mut parent = Trigger::from(CounterTrigger::new(Counter::Finit(3), inner));
    parent.forward_generation(100);
    let mut run = CounterRun::begin(Counter::Finit(3));
    let mut log: Vec<u64> = Vec::new();
    while run.should_continue() {
        log.push(run.child_fired(&mut parent));
    }
    assert_eq!(log, vec![100, 101, 102]);
    assert_eq!(parent.generation(), 103);
}

#[test]
fn infinite_counter_keeps_generation_at_least_the_fire_count() {
    let inner = Trigger::from(one_shot());
    let mut parent = Trigger::from(CounterTrigger::new(Counter::Infinite, inner));
    let mut run = CounterRun::begin(Counter::Infinite);
    for k in 1..=50u64 {
        assert!(run.should_continue());
        run.child_fired(&mut parent);
        assert!(parent.generation() >= k);
    }
    assert!(run.should_continue());
}

#[test]
fn child_closing_without_a_fire_ends_the_run() {
    let mut run = CounterRun::begin(Counter::Finit(5));
    assert!(run.should_continue());
    run.child_closed();
    assert!(!run.should_continue());
}

#[test]
fn aborting_a_run_aborts_the_active_child() {
    let inner = Trigger::from(one_shot());
    let mut parent = Trigger::from(CounterTrigger::new(Counter::Finit(5), inner));
    let mut run = CounterRun::begin(Counter::Finit(5));
    let child = parent.fresh_copy();
    assert!(run.install_child(child).is_none());
    let taken = run.abort(&mut parent);
    assert!(parent.aborted);
    let taken = taken.expect("the active child is handed back");
    assert!(taken.aborted);
    // the slot is empty now: a second abort finds no child
    assert!(run.abort(&mut parent).is_none());
}

#[test]
fn installing_a_child_hands_back_the_previous_one() {
    let inner = Trigger::from(one_shot());
    let parent = Trigger::from(CounterTrigger::new(Counter::Finit(5), inner));
    let mut run = CounterRun::begin(Counter::Finit(5));
    assert!(run.install_child(parent.fresh_copy()).is_none());
    assert!(run.install_child(parent.fresh_copy()).is_some());
}

#[test]
fn a_fresh_copy_starts_detached_with_a_zero_counter() {
    let mut t = Trigger::from(one_shot());
    t.forward_generation(42);
    t.start();
    assert!(t.receiver().is_some());
    let mut copy = t.fresh_copy();
    assert_eq!(copy.generation(), 0);
    assert!(!copy.started);
    assert!(!copy.aborted);
    assert!(copy.receiver().is_some());
    assert_eq!(t.generation(), 42);
}

#[test]
fn starting_twice_is_a_no_op() {
    let mut t = Trigger::from(one_shot());
    t.forward_generation(5);
    t.start();
    assert!(t.started);
    t.start();
    assert!(t.started);
    assert_eq!(t.generation(), 5);
}
