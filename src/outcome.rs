//! The error taxonomy and the tagged result of a stage or candidate.
use vstd::prelude::*;

verus! {

/// The class of a failure surfaced to the caller.
#[derive(Clone, Copy, Debug, PartialEq, Eq, Structural)]
pub enum ErrorKind {
    /// A filesystem create, write or delete failed.
    Io,
    /// A transport failure or a non-success response status.
    Network,
    /// A malformed source URL.
    Parse,
    /// An executable could not be started.
    ProcessLaunch,
    /// A tool ran, reported failure, and no fallback remained.
    ProcessExit,
    /// An expected artifact or script is absent.
    NotFound,
}

/// A typed failure with its diagnostic text.
#[derive(Clone, Debug, PartialEq, Eq)]
pub struct Failure {
    pub kind: ErrorKind,
    pub detail: String,
}

/// The outcome of running a stage or a candidate.
#[derive(Clone, Debug, PartialEq, Eq)]
pub enum ExecutionResult {
    /// The goal state already held; nothing was done.
    Skipped(String),
    /// The goal was reached; `partial` marks a degraded success
    /// (for instance a clone without its large files).
    Succeeded { detail: String, partial: bool },
    Failed(Failure),
}

/// The normalized result of running an external tool to completion.
#[derive(Clone, Debug, PartialEq, Eq)]
pub struct ProcessOutcome {
    pub exit_succeeded: bool,
    pub stdout: String,
    pub stderr: String,
}

pub fn failure(kind: ErrorKind, detail: &str) -> (r: Failure)
    ensures
        r.kind == kind,
        r.detail@ == detail@,
{
    Failure { kind, detail: detail.to_owned() }
}

} // verus!
