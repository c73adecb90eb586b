use runtil::config::Config;
use runtil::coordinator::{coordinator_step, CoordinatorEvent, CoordinatorState};
use runtil::poll::{poll_step, PollEvent, PollStep, POLL_INTERVAL_MS};
use runtil::run::{exit_code_of_status, run_step, RunEvent, RunStep};

#[test]
fn poll_success_reports_condition_met() {
    let step = poll_step(&PollEvent::Completed { success: true }, 150);
    assert_eq!(step, PollStep::ConditionMet);
}

#[test]
fn poll_cancellation_stops_the_loop() {
    let step = poll_step(&PollEvent::Cancelled, 0);
    assert_eq!(step, PollStep::Stopped);
}

#[test]
fn fast_failing_poll_waits_out_the_interval() {
    let step = poll_step(&PollEvent::Completed { success: false }, 500);
    assert_eq!(step, PollStep::RetryAfter { delay_ms: 1500 });
}

#[test]
fn attempts_are_spaced_a_full_interval_apart() {
    for elapsed in [0, 1, 999, 1999] {
        match poll_step(&PollEvent::Completed { success: false }, elapsed) {
            PollStep::RetryAfter { delay_ms } => {
                assert_eq!(elapsed + delay_ms, POLL_INTERVAL_MS);
            }
            other => panic!("expected a retry, got {other:?}"),
        }
    }
}

#[test]
fn slow_poll_retries_immediately() {
    let at_interval = poll_step(&PollEvent::Completed { success: false }, 2000);
    assert_eq!(at_interval, PollStep::RetryAfter { delay_ms: 0 });
    let over_interval = poll_step(&PollEvent::Completed { success: false }, 3500);
    assert_eq!(over_interval, PollStep::RetryAfter { delay_ms: 0 });
}

#[test]
fn exit_code_defaults_to_one_without_a_status_code() {
    assert_eq!(exit_code_of_status(Some(0)), 0);
    assert_eq!(exit_code_of_status(Some(42)), 42);
    assert_eq!(exit_code_of_status(None), 1);
}

#[test]
fn natural_exit_propagates_the_exit_code() {
    let config = Config::new(false);
    let step = run_step(&RunEvent::Exited { code: Some(42) }, &config);
    assert_eq!(step, RunStep::Exit { code: 42 });
}

#[test]
fn signal_death_maps_to_exit_code_one() {
    let config = Config::new(false);
    let step = run_step(&RunEvent::Exited { code: None }, &config);
    assert_eq!(step, RunStep::Exit { code: 1 });
}

#[test]
fn wait_failure_is_fatal() {
    let config = Config::new(false);
    let step = run_step(&RunEvent::WaitFailed, &config);
    assert_eq!(step, RunStep::Fatal);
}

#[test]
fn cancellation_kills_and_reports_the_kill_code() {
    let config = Config::new(false);
    let step = run_step(&RunEvent::Cancelled, &config);
    assert_eq!(step, RunStep::KillThenExit { code: 124 });
}

#[test]
fn run_finishing_first_cancels_poll_and_propagates_the_code() {
    let t = coordinator_step(
        &CoordinatorState::Running,
        &CoordinatorEvent::RunFinished { code: 42 },
    );
    assert_eq!(t.next, CoordinatorState::Done { exit_code: 42 });
    assert!(t.cancel_poll);
    assert!(!t.cancel_run);
}

#[test]
fn poll_success_first_ends_with_the_kill_code() {
    let config = Config::new(false);
    let first = coordinator_step(&CoordinatorState::Running, &CoordinatorEvent::PollSucceeded);
    assert_eq!(first.next, CoordinatorState::AwaitingForcedRun);
    assert!(first.cancel_run);
    assert!(!first.cancel_poll);
    // The cancelled supervisor kills the run command and resolves to the
    // configured kill code, which the coordinator then adopts.
    let forced = run_step(&RunEvent::Cancelled, &config);
    assert_eq!(forced, RunStep::KillThenExit { code: 124 });
    let second = coordinator_step(
        &first.next,
        &CoordinatorEvent::RunResolved { code: 124 },
    );
    assert_eq!(second.next, CoordinatorState::Done { exit_code: 124 });
    assert!(!second.cancel_poll);
    assert!(!second.cancel_run);
}

#[test]
fn no_transition_cancels_both_tasks() {
    let states = [
        CoordinatorState::Running,
        CoordinatorState::AwaitingForcedRun,
        CoordinatorState::Done { exit_code: 7 },
    ];
    let events = [
        CoordinatorEvent::RunFinished { code: 3 },
        CoordinatorEvent::PollSucceeded,
        CoordinatorEvent::RunResolved { code: 124 },
    ];
    for state in &states {
        for event in &events {
            let t = coordinator_step(state, event);
            assert!(!(t.cancel_poll && t.cancel_run));
        }
    }
}

#[test]
fn done_state_is_terminal() {
    let done = CoordinatorState::Done { exit_code: 5 };
    let t = coordinator_step(&done, &CoordinatorEvent::PollSucceeded);
    assert_eq!(t.next, done);
    assert!(!t.cancel_poll);
    assert!(!t.cancel_run);
}

#[test]
fn simultaneous_natural_exit_wins_its_own_branch() {
    // If the run command happens to finish in the same instant the poll
    // loop succeeds, the supervisor's own resolution is authoritative.
    let config = Config::new(false);
    let forced = run_step(&RunEvent::Exited { code: Some(0) }, &config);
    assert_eq!(forced, RunStep::Exit { code: 0 });
    let t = coordinator_step(
        &CoordinatorState::AwaitingForcedRun,
        &CoordinatorEvent::RunResolved { code: 0 },
    );
    assert_eq!(t.next, CoordinatorState::Done { exit_code: 0 });
}
