//! The run supervisor's resolution: how the supervised command's
//! termination, a failure to observe it, or cancellation turns into the
//! supervised outcome.

use crate::config::Config;
use vstd::prelude::*;

verus! {

/// What resolved the supervisor's wait: the run process exited (with an
/// exit code, or none when it was ended by a signal), the wait itself
/// failed at the system level, or cancellation was observed first.
#[derive(Clone, Copy, Debug, PartialEq, Eq, Structural)]
pub enum RunEvent {
    Exited { code: Option<i32> },
    WaitFailed,
    Cancelled,
}

/// The supervisor's resolution: report the given exit code as the
/// supervised outcome; treat the situation as fatal for the whole program;
/// or kill the child and then report the given exit code.
#[derive(Clone, Copy, Debug, PartialEq, Eq, Structural)]
pub enum RunStep {
    Exit { code: i32 },
    Fatal,
    KillThenExit { code: i32 },
}

/// The exit code derived from a termination status: the status's own code,
/// or 1 when the status carries none.
pub open spec fn spec_exit_code_of_status(code: Option<i32>) -> i32 {
    match code {
        Some(c) => c,
        None => 1,
    }
}

/// The supervisor's resolution as a function of what ended its wait.
pub open spec fn spec_run_step(event: RunEvent, config: Config) -> RunStep {
    match event {
        RunEvent::Exited { code } => RunStep::Exit { code: spec_exit_code_of_status(code) },
        RunEvent::WaitFailed => RunStep::Fatal,
        RunEvent::Cancelled => RunStep::KillThenExit { code: config.kill_condition_code },
    }
}

/// Derive an exit code from a termination status, defaulting to 1 when the
/// status provides none (the process was ended by a signal).
pub fn exit_code_of_status(code: Option<i32>) -> (r: i32)
    ensures
        r == spec_exit_code_of_status(code),
{
    match code {
        Some(c) => c,
        None => 1,
    }
}

/// Resolve the supervisor: a natural exit propagates the derived exit
/// code, a wait failure is fatal, and cancellation means the child is
/// killed and the configured kill code is the outcome.
pub fn run_step(event: &RunEvent, config: &Config) -> (s: RunStep)
    ensures
        s == spec_run_step(*event, *config),
{
    match event {
        RunEvent::Exited { code } => RunStep::Exit { code: exit_code_of_status(*code) },
        RunEvent::WaitFailed => RunStep::Fatal,
        RunEvent::Cancelled => RunStep::KillThenExit { code: config.kill_condition_code },
    }
}

} // verus!
