//! Per-iteration decisions of the poll loop: what to do after one poll
//! attempt resolves, and how long to wait before the next attempt so that
//! attempts are spaced a fixed interval apart, measured start to start.

use vstd::prelude::*;

verus! {

/// Fixed spacing between consecutive poll attempts, start to start, in
/// milliseconds.
pub const POLL_INTERVAL_MS: u64 = 2000;

/// What ended one poll attempt: the poll command ran to completion with a
/// successful or failing exit status, or cancellation was observed while
/// the attempt was in flight.
#[derive(Clone, Copy, Debug, PartialEq, Eq, Structural)]
pub enum PollEvent {
    Completed { success: bool },
    Cancelled,
}

/// The loop's decision after one attempt: report the condition met, stop
/// because of cancellation, or retry after waiting the given number of
/// milliseconds.
#[derive(Clone, Copy, Debug, PartialEq, Eq, Structural)]
pub enum PollStep {
    ConditionMet,
    Stopped,
    RetryAfter { delay_ms: u64 },
}

/// Delay before the next attempt, given how long the last attempt took:
/// the remainder of the interval, or nothing if the attempt itself took at
/// least the whole interval.
pub open spec fn spec_retry_delay(elapsed_ms: u64) -> u64 {
    if elapsed_ms < POLL_INTERVAL_MS {
        (POLL_INTERVAL_MS - elapsed_ms) as u64
    } else {
        0u64
    }
}

/// The decision taken after one poll attempt, as a function of what ended
/// it and of how long it took.
pub open spec fn spec_poll_step(event: PollEvent, elapsed_ms: u64) -> PollStep {
    match event {
        PollEvent::Cancelled => PollStep::Stopped,
        PollEvent::Completed { success } => if success {
            PollStep::ConditionMet
        } else {
            PollStep::RetryAfter { delay_ms: spec_retry_delay(elapsed_ms) }
        },
    }
}

/// Decide what the poll loop does next: stop on cancellation, report the
/// condition met on a successful exit, and otherwise retry after the
/// remainder of the interval.
pub fn poll_step(event: &PollEvent, elapsed_ms: u64) -> (s: PollStep)
    ensures
        s == spec_poll_step(*event, elapsed_ms),
{
    match event {
        PollEvent::Cancelled => PollStep::Stopped,
        PollEvent::Completed { success } => {
            if *success {
                PollStep::ConditionMet
            } else if elapsed_ms < POLL_INTERVAL_MS {
                PollStep::RetryAfter { delay_ms: POLL_INTERVAL_MS - elapsed_ms }
            } else {
                PollStep::RetryAfter { delay_ms: 0 }
            }
        },
    }
}

/// Failing attempts are spaced at least the interval apart, start to
/// start: a short attempt is padded out to exactly the interval, and an
/// attempt that itself took the whole interval or more incurs no added
/// delay.
pub proof fn lemma_poll_spacing(elapsed_ms: u64)
    ensures
        elapsed_ms < POLL_INTERVAL_MS ==> elapsed_ms + spec_retry_delay(
            elapsed_ms,
        ) == POLL_INTERVAL_MS,
        elapsed_ms >= POLL_INTERVAL_MS ==> spec_retry_delay(elapsed_ms) == 0,
{
}

} // verus!
