//! Immutable per-invocation configuration, built once from the leading
//! option tokens and carried unchanged for the rest of the process.

use vstd::prelude::*;

verus! {

/// Exit code reported when the run command is killed because the poll
/// command succeeded first; mirrors the conventional timed-out code.
pub const DEFAULT_KILL_CONDITION_CODE: i32 = 124;

/// Per-invocation configuration: whether to echo the resolved command
/// strings, and which exit code stands for "killed on poll success".
#[derive(Clone, Copy, Debug, PartialEq, Eq, Structural)]
pub struct Config {
    pub verbose: bool,
    pub kill_condition_code: i32,
}

impl Config {
    /// A configuration with the default kill code and the given verbosity.
    pub fn new(verbose: bool) -> (c: Config)
        ensures
            c.verbose == verbose,
            c.kill_condition_code == DEFAULT_KILL_CONDITION_CODE,
    {
        Config { verbose, kill_condition_code: DEFAULT_KILL_CONDITION_CODE }
    }
}

} // verus!
