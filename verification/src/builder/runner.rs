//! Command execution: the interfaces that run commands, and runners for dry runs and for recording.

use vstd::prelude::*;
use std::sync::Mutex;

verus! {

/// Why a command failed.
#[derive(Debug)]
pub struct RunError {
    pub message: String,
}

/// Executes a command line (`cmd[0]` the program, the rest its arguments).
pub trait CommandRunner: Send + Sync {
    fn run(&self, cmd: &[String]) -> Result<(), RunError>;
}

/// Executes a command whose failure is expected and ignored (idempotent setup).
pub trait IdempotentRunner: CommandRunner {
    fn run_no_check(&self, cmd: &[String]);
}

#[verifier::external_type_specification]
#[verifier::external_body]
#[verifier::reject_recursive_types(T)]
pub struct ExMutex<T: ?Sized>(Mutex<T>);

/// `Mutex::new` from `std`: a lock holding no commands. What it holds later changes
/// behind shared references, so no contract speaks of its contents.
#[verifier::external_body]
fn empty_log() -> Mutex<Vec<Vec<String>>> {
    Mutex::new(Vec::new())
}

/// `Mutex::lock` from `std`, then a copy of `cmd` pushed onto the commands it holds.
/// The lock is never poisoned: nothing that holds it can panic but for exhausted memory.
#[verifier::external_body]
fn log_push(log: &Mutex<Vec<Vec<String>>>, cmd: &[String]) {
    log.lock().unwrap().push(cmd.to_vec())
}

/// `Mutex::lock` from `std`, then a copy of the commands it holds.
#[verifier::external_body]
fn log_snapshot(log: &Mutex<Vec<Vec<String>>>) -> Vec<Vec<String>> {
    log.lock().unwrap().clone()
}

/// A runner for dry runs: runs nothing and reports success.
#[derive(Default)]
pub struct DryRunner;

impl CommandRunner for DryRunner {
    fn run(&self, cmd: &[String]) -> (r: Result<(), RunError>)
        ensures
            r is Ok,
    {
        Ok(())
    }
}

impl IdempotentRunner for DryRunner {
    fn run_no_check(&self, cmd: &[String]) {
    }
}

/// A runner that records every command it is given, in order, and always succeeds.
pub struct MockRunner {
    pub commands: Mutex<Vec<Vec<String>>>,
}

impl MockRunner {
    pub fn new() -> (r: Self) {
        MockRunner { commands: empty_log() }
    }

    /// The commands recorded so far, in the order they were given.
    pub fn commands(&self) -> Vec<Vec<String>> {
        log_snapshot(&self.commands)
    }
}

impl Default for MockRunner {
    /// A runner that has recorded nothing (as `new`).
    fn default() -> Self {
        MockRunner::new()
    }
}

impl CommandRunner for MockRunner {
    fn run(&self, cmd: &[String]) -> (r: Result<(), RunError>)
        ensures
            r is Ok,
    {
        log_push(&self.commands, cmd);
        Ok(())
    }
}

impl IdempotentRunner for MockRunner {
    fn run_no_check(&self, cmd: &[String]) {
        log_push(&self.commands, cmd);
    }
}

} // verus!
