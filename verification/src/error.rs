//! The error type that every runner command reports.
use vstd::prelude::*;

verus! {

/// A failure of a runner command.
#[derive(Debug)]
pub enum RunnerError {
    /// A command could not do what was asked; the message says why.
    TaskInvocation { message: String },
    /// No catalog defines the requested task.
    TaskNotFoundAny { name: String, catalogs: Vec<String> },
    /// The catalog prefix of a task selector names no catalog.
    TaskCatalogPrefixNotFound { prefix: String },
    /// The selected catalog does not define the requested task.
    TaskNotFound { name: String },
    /// A deferred request was handed off again from inside a deferral.
    DeferLoopDetected { depth: u8 },
    /// The primary container service never accepted `exec`.
    ContainerRuntimeExecNotReady { policy: String, service: String, working_dir: String },
    /// A container policy or backend check failed.
    ContainerRuntimePolicy { phase: String, detail: String },
    /// A dependency operation finished with a failing outcome or errors.
    DepsOperationNonZero { command: String, outcome: String, error_count: usize, rendered: String },
    /// A command ran and exited unsuccessfully.
    TaskCommandFailure { command: String, code: Option<i32>, stdout: String, stderr: String },
    /// A command failed in JSON mode; `rendered` is its JSON error payload.
    CommandJsonFailure { rendered: String },
    /// `doctor` found errors; `rendered` is the report.
    DoctorNonZero { error_count: usize, rendered: String },
}

impl RunnerError {
    /// A task-invocation error carrying `message`.
    pub fn task_invocation(message: &str) -> (r: RunnerError)
        ensures
            r matches RunnerError::TaskInvocation { message: m } && m@ == message@,
    {
        RunnerError::TaskInvocation { message: message.to_owned() }
    }
}

/// Every value of the unit type is `()`.
pub proof fn lemma_unit(u: ())
    ensures
        u == (),
{
}

/// Whether `e` is a task-invocation error with message `m`.
pub open spec fn is_invocation(e: RunnerError, m: Seq<char>) -> bool {
    e matches RunnerError::TaskInvocation { message } && message@ == m
}

} // verus!
