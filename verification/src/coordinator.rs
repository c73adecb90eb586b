//! The top-level state machine that races the run supervisor against the
//! poll loop. Exactly one of the two is observed as resolving first; the
//! loser is cancelled, and cancellation is always downstream of a detected
//! outcome — the coordinator never triggers both cancellations at once.

use crate::config::Config;
use crate::run::{spec_run_step, RunEvent, RunStep};
use vstd::prelude::*;

verus! {

/// The coordinator's state: both tasks racing; the poll condition met and
/// the run supervisor's forced resolution still awaited; or finished, with
/// the program's exit code.
#[derive(Clone, Copy, Debug, PartialEq, Eq, Structural)]
pub enum CoordinatorState {
    Running,
    AwaitingForcedRun,
    Done { exit_code: i32 },
}

/// What the coordinator observed: the run supervisor resolved first with
/// the given supervised exit code; the poll loop reported the condition
/// met first; or the run supervisor's forced resolution arrived after the
/// poll loop won the race.
#[derive(Clone, Copy, Debug, PartialEq, Eq, Structural)]
pub enum CoordinatorEvent {
    RunFinished { code: i32 },
    PollSucceeded,
    RunResolved { code: i32 },
}

/// One transition: the next state, and which cancellation signals to set
/// before moving on.
#[derive(Clone, Copy, Debug, PartialEq, Eq, Structural)]
pub struct Transition {
    pub next: CoordinatorState,
    pub cancel_poll: bool,
    pub cancel_run: bool,
}

/// The coordinator's transition function. An event that cannot occur in
/// the current state (a forced resolution while both tasks still race, or
/// anything after the machine is done) changes nothing.
pub open spec fn spec_coordinator_step(
    state: CoordinatorState,
    event: CoordinatorEvent,
) -> Transition {
    match state {
        CoordinatorState::Running => match event {
            CoordinatorEvent::RunFinished { code } => Transition {
                next: CoordinatorState::Done { exit_code: code },
                cancel_poll: true,
                cancel_run: false,
            },
            CoordinatorEvent::PollSucceeded => Transition {
                next: CoordinatorState::AwaitingForcedRun,
                cancel_poll: false,
                cancel_run: true,
            },
            CoordinatorEvent::RunResolved { .. } => Transition {
                next: state,
                cancel_poll: false,
                cancel_run: false,
            },
        },
        CoordinatorState::AwaitingForcedRun => match event {
            CoordinatorEvent::RunResolved { code } => Transition {
                next: CoordinatorState::Done { exit_code: code },
                cancel_poll: false,
                cancel_run: false,
            },
            _ => Transition { next: state, cancel_poll: false, cancel_run: false },
        },
        CoordinatorState::Done { .. } => Transition {
            next: state,
            cancel_poll: false,
            cancel_run: false,
        },
    }
}

/// Take one coordinator transition: on a first resolution cancel the other
/// task's signal and either finish with the run command's own exit code or
/// await the forced resolution; adopt that forced resolution when it
/// arrives.
pub fn coordinator_step(state: &CoordinatorState, event: &CoordinatorEvent) -> (t: Transition)
    ensures
        t == spec_coordinator_step(*state, *event),
{
    match state {
        CoordinatorState::Running => match event {
            CoordinatorEvent::RunFinished { code } => Transition {
                next: CoordinatorState::Done { exit_code: *code },
                cancel_poll: true,
                cancel_run: false,
            },
            CoordinatorEvent::PollSucceeded => Transition {
                next: CoordinatorState::AwaitingForcedRun,
                cancel_poll: false,
                cancel_run: true,
            },
            CoordinatorEvent::RunResolved { .. } => Transition {
                next: *state,
                cancel_poll: false,
                cancel_run: false,
            },
        },
        CoordinatorState::AwaitingForcedRun => match event {
            CoordinatorEvent::RunResolved { code } => Transition {
                next: CoordinatorState::Done { exit_code: *code },
                cancel_poll: false,
                cancel_run: false,
            },
            _ => Transition { next: *state, cancel_poll: false, cancel_run: false },
        },
        CoordinatorState::Done { .. } => Transition {
            next: *state,
            cancel_poll: false,
            cancel_run: false,
        },
    }
}

/// No transition ever sets both cancellation signals: cancelling one task
/// is always the consequence of the other's detected outcome, never a
/// blanket shutdown.
pub proof fn lemma_cancellation_exclusive(state: CoordinatorState, event: CoordinatorEvent)
    ensures
        !(spec_coordinator_step(state, event).cancel_poll && spec_coordinator_step(
            state,
            event,
        ).cancel_run),
{
}

/// If the run command finishes first with some exit code, the poll loop is
/// cancelled, the run supervisor is not, and that exit code becomes the
/// program's exit code.
pub proof fn lemma_run_finishes_first(code: i32)
    ensures
        ({
            let t = spec_coordinator_step(
                CoordinatorState::Running,
                CoordinatorEvent::RunFinished { code },
            );
            &&& t.next == (CoordinatorState::Done { exit_code: code })
            &&& t.cancel_poll
            &&& !t.cancel_run
        }),
{
}

/// If the poll command succeeds first, the run supervisor is cancelled
/// (and the poll loop is not); the supervisor then kills the run command
/// and resolves to the configured kill code, and the program exits with
/// that kill code.
pub proof fn lemma_poll_succeeds_first(config: Config)
    ensures
        ({
            let first = spec_coordinator_step(
                CoordinatorState::Running,
                CoordinatorEvent::PollSucceeded,
            );
            let forced = spec_run_step(RunEvent::Cancelled, config);
            &&& first.cancel_run
            &&& !first.cancel_poll
            &&& first.next == CoordinatorState::AwaitingForcedRun
            &&& forced == (RunStep::KillThenExit { code: config.kill_condition_code })
            &&& spec_coordinator_step(
                first.next,
                CoordinatorEvent::RunResolved { code: config.kill_condition_code },
            ).next == (CoordinatorState::Done { exit_code: config.kill_condition_code })
        }),
{
}

} // verus!
