use std::time::{Duration, SystemTime};
use zuse::job::{ClockReading, JobSMStates, JobStateMachine};

fn reading(elapsed: Option<u64>) -> ClockReading {
    ClockReading { elapsed, now: SystemTime::UNIX_EPOCH + Duration::from_secs(77) }
}

#[test]
fn a_machine_starts_normative() {
    let machine = JobStateMachine::new(3, 2);
    assert_eq!(machine.state, JobSMStates::Normative);
    assert_eq!(machine.n_failures, 0);
    assert_eq!(machine.n_recoveries, 0);
    assert_eq!(machine.last_state_lasted, 0);
    assert_eq!((machine.retries, machine.recovery), (3, 2));
    assert!(!machine.state_changed());
    assert!(machine.last_change.elapsed().unwrap() < Duration::from_secs(20));
}

#[test]
fn failure_comes_with_the_last_retry() {
    let mut machine = JobStateMachine::new(3, 2);
    machine.loss();
    machine.loss();
    assert_eq!(machine.state, JobSMStates::Normative);
    assert_eq!(machine.n_failures, 2);
    machine.loss();
    assert_eq!(machine.state, JobSMStates::Failure);
    assert_eq!(machine.last_state, JobSMStates::Normative);
    assert!(machine.state_changed());
    machine.loss();
    assert_eq!(machine.state, JobSMStates::Failure);
    assert_eq!(machine.n_failures, 4);
    assert!(!machine.state_changed());
}

#[test]
fn no_retries_fail_at_once() {
    let mut machine = JobStateMachine::new(0, 0);
    machine.loss();
    assert_eq!(machine.state, JobSMStates::Failure);
    machine.win();
    assert_eq!(machine.state, JobSMStates::Recovery);
}

#[test]
fn a_pass_makes_failures_start_again() {
    let mut machine = JobStateMachine::new(2, 1);
    machine.loss();
    machine.win();
    assert_eq!(machine.n_failures, 0);
    machine.loss();
    assert_eq!(machine.state, JobSMStates::Normative);
}

#[test]
fn a_failure_makes_recoveries_start_again() {
    let mut machine = JobStateMachine::new(1, 2);
    machine.loss();
    machine.win();
    assert_eq!(machine.n_recoveries, 1);
    machine.loss();
    assert_eq!(machine.n_recoveries, 0);
    machine.win();
    assert_eq!(machine.state, JobSMStates::Failure);
    machine.win();
    assert_eq!(machine.state, JobSMStates::Recovery);
    assert_eq!((machine.n_failures, machine.n_recoveries), (0, 0));
}

#[test]
fn a_recovery_ends_in_the_normative_state() {
    let mut machine = JobStateMachine::new(1, 1);
    machine.normative();
    assert_eq!(machine.state, JobSMStates::Normative);
    machine.loss();
    machine.normative();
    assert_eq!(machine.state, JobSMStates::Failure);
    machine.win();
    machine.win();
    assert_eq!(machine.state, JobSMStates::Recovery);
    assert!(!machine.state_changed());
    machine.normative();
    assert_eq!(machine.state, JobSMStates::Normative);
    assert_eq!(machine.last_state, JobSMStates::Recovery);
}

#[test]
fn a_failure_during_a_recovery_counts_at_once() {
    let mut machine = JobStateMachine::new(5, 1);
    for _ in 0..5 {
        machine.loss();
    }
    machine.win();
    assert_eq!(machine.state, JobSMStates::Recovery);
    machine.loss();
    assert_eq!(machine.state, JobSMStates::Failure);
    assert_eq!(machine.n_failures, 1);
}

#[test]
fn the_clock_is_noted_where_the_state_changes() {
    let start = SystemTime::UNIX_EPOCH;
    let mut machine = JobStateMachine::new_at(1, 1, start);
    machine.win_at(reading(Some(9)));
    assert_eq!(machine.last_state_lasted, 0);
    assert_eq!(machine.last_change, start);
    machine.loss_at(reading(Some(9)));
    assert_eq!(machine.last_state_lasted, 9);
    assert_eq!(machine.last_change, start + Duration::from_secs(77));
    machine.loss_at(reading(Some(100)));
    assert_eq!(machine.last_state_lasted, 9);
}

#[test]
fn a_clock_that_goes_backwards_counts_as_no_time() {
    let mut machine = JobStateMachine::new_at(1, 1, SystemTime::UNIX_EPOCH);
    machine.last_state_lasted = 4;
    machine.state_at(JobSMStates::Recovery, reading(None));
    assert_eq!(machine.last_state_lasted, 0);
    machine.state_at(JobSMStates::Recovery, reading(Some(8)));
    assert_eq!(machine.last_state_lasted, 0);
    assert!(!machine.state_changed());
}

#[test]
fn time_passed_is_measured_in_seconds() {
    let now = SystemTime::now();
    let mut machine = JobStateMachine::new_at(1, 1, now - Duration::from_secs(3600));
    machine.state(JobSMStates::Failure);
    assert!(machine.last_state_lasted >= 3600);
    assert!(machine.last_state_lasted < 3700);
    assert!(machine.last_change >= now);
}

#[test]
fn a_change_in_the_future_lasted_no_time() {
    let later = SystemTime::now() + Duration::from_secs(3600);
    let mut machine = JobStateMachine::new_at(1, 1, later);
    machine.last_state_lasted = 5;
    machine.loss();
    assert_eq!(machine.last_state_lasted, 0);
    assert!(machine.last_change < later);
}
