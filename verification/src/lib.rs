//! A command-line supervisor that races two external commands: a "poll"
//! command, repeatedly executed until it succeeds, and a "run" command,
//! executed once. Whichever resolves first decides the outcome: if the run
//! command exits first its exit code is propagated; if the poll command
//! succeeds first the run command is killed and a configurable kill code
//! (124 by default) is reported.
//!
//! This crate holds the verified decision logic: argument partitioning,
//! option parsing, the per-iteration schedule of the poll loop, the run
//! supervisor's exit-code derivation, and the coordinator state machine.
//! The surrounding binary performs the actual process spawning, timers and
//! cancellation plumbing, consulting these functions for every decision.

pub mod args;
pub mod config;
pub mod coordinator;
pub mod poll;
pub mod run;
