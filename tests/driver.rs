use gravitas::driver::{RunControl, RunPhase};
use gravitas::termination::{check_termination, TerminationReason};

#[test]
fn horizon_test_wins_over_escape_test() {
    assert_eq!(check_termination(true, true), Some(TerminationReason::Horizon));
    assert_eq!(check_termination(true, false), Some(TerminationReason::Horizon));
    assert_eq!(check_termination(false, true), Some(TerminationReason::Escape));
    assert_eq!(check_termination(false, false), None);
}

#[test]
fn fresh_run_is_running() {
    let c = RunControl::new(5000, 10);
    assert_eq!(c.steps, 0);
    assert_eq!(c.max_steps, 5000);
    assert_eq!(c.renormalize_interval, 10);
    assert_eq!(c.phase, RunPhase::Running);
    assert!(!c.is_terminated());
}

#[test]
fn zero_budget_stops_at_once_with_max_steps() {
    let mut c = RunControl::new(0, 10);
    assert_eq!(c.before_step(false, false), RunPhase::Terminated(TerminationReason::MaxSteps));
    assert_eq!(c.steps, 0);
    assert!(c.is_terminated());
}

#[test]
fn exhausted_budget_wins_over_position() {
    let mut c = RunControl::new(1, 10);
    assert_eq!(c.before_step(false, false), RunPhase::Running);
    c.after_step();
    assert_eq!(c.before_step(true, false), RunPhase::Terminated(TerminationReason::MaxSteps));
    assert_eq!(c.steps, 1);
}

#[test]
fn horizon_and_escape_stop_the_run() {
    let mut c = RunControl::new(100, 10);
    assert_eq!(c.before_step(false, false), RunPhase::Running);
    c.after_step();
    assert_eq!(c.before_step(true, false), RunPhase::Terminated(TerminationReason::Horizon));
    assert_eq!(c.steps, 1);

    let mut d = RunControl::new(100, 10);
    assert_eq!(d.before_step(false, true), RunPhase::Terminated(TerminationReason::Escape));
    assert_eq!(d.steps, 0);
}

#[test]
fn renormalization_every_interval_from_the_first_step() {
    let mut c = RunControl::new(25, 10);
    let mut due = Vec::new();
    while c.before_step(false, false) == RunPhase::Running {
        if c.after_step() {
            due.push(c.steps);
        }
    }
    assert_eq!(due, vec![1, 11, 21]);
    assert_eq!(c.steps, 25);
    assert_eq!(c.phase, RunPhase::Terminated(TerminationReason::MaxSteps));
}

#[test]
fn interval_one_renormalizes_after_every_step() {
    let mut c = RunControl::new(3, 1);
    let mut count = 0;
    while c.before_step(false, false) == RunPhase::Running {
        if c.after_step() {
            count += 1;
        }
    }
    assert_eq!(count, 3);
}

#[test]
fn terminated_run_stays_terminated() {
    let mut c = RunControl::new(100, 10);
    assert_eq!(c.before_step(false, true), RunPhase::Terminated(TerminationReason::Escape));
    assert_eq!(c.before_step(true, false), RunPhase::Terminated(TerminationReason::Escape));
    assert_eq!(c.before_step(false, false), RunPhase::Terminated(TerminationReason::Escape));
    assert!(!c.after_step());
    assert_eq!(c.steps, 0);
    assert_eq!(c.phase, RunPhase::Terminated(TerminationReason::Escape));
}

#[test]
fn no_step_is_counted_past_the_budget() {
    let mut c = RunControl::new(2, 10);
    assert!(c.after_step());
    assert!(!c.after_step());
    assert!(!c.after_step());
    assert_eq!(c.steps, 2);
}
