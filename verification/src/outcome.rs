//! How the end of a spawned command is turned into an outcome.

use crate::text::{decode_lossy, lossy_text};
use vstd::prelude::*;
use vstd::string::StringExecFns;

verus! {

/// What the process boundary hands back after one spawn attempt.
#[derive(Debug, Clone, PartialEq, Eq)]
pub enum LaunchReport {
    /// The executable could not be started; `cause` is the platform's
    /// description of why.
    NotStarted { cause: String },
    /// The process ran to its end. `exit_code` is `None` where the process
    /// ended without one; the two streams are the bytes it wrote.
    Completed { exit_code: Option<i32>, stdout: Vec<u8>, stderr: Vec<u8> },
}

/// A [`LaunchReport`] as plain values.
pub enum ReportView {
    NotStarted { cause: Seq<char> },
    Completed { exit_code: Option<i32>, stdout: Seq<u8>, stderr: Seq<u8> },
}

impl View for LaunchReport {
    type V = ReportView;

    open spec fn view(&self) -> ReportView {
        match self {
            LaunchReport::NotStarted { cause } => ReportView::NotStarted { cause: cause@ },
            LaunchReport::Completed { exit_code, stdout, stderr } => ReportView::Completed {
                exit_code: *exit_code,
                stdout: stdout@,
                stderr: stderr@,
            },
        }
    }
}

/// The result of running one command: exactly one of three shapes.
#[derive(Debug, Clone, PartialEq, Eq)]
pub enum ExecutionOutcome {
    /// The process exited with status zero; holds its standard output.
    Success(String),
    /// The process ended in any other way; holds its standard error.
    Failure(String),
    /// The process never started; holds a description with the cause.
    LaunchError(String),
}

/// An [`ExecutionOutcome`] as plain values.
pub enum OutcomeView {
    Success(Seq<char>),
    Failure(Seq<char>),
    LaunchError(Seq<char>),
}

impl View for ExecutionOutcome {
    type V = OutcomeView;

    open spec fn view(&self) -> OutcomeView {
        match self {
            ExecutionOutcome::Success(text) => OutcomeView::Success(text@),
            ExecutionOutcome::Failure(text) => OutcomeView::Failure(text@),
            ExecutionOutcome::LaunchError(text) => OutcomeView::LaunchError(text@),
        }
    }
}

/// A process succeeded when it exited with status zero, and only then.
pub open spec fn exit_is_success(exit_code: Option<i32>) -> bool {
    exit_code == Some(0i32)
}

/// What every launch error message starts with.
pub open spec fn launch_error_prefix() -> Seq<char> {
    "Failed to execute hdc: "@
}

/// The message of a launch error: the fixed prefix, then the cause.
pub open spec fn launch_error_text(cause: Seq<char>) -> Seq<char> {
    launch_error_prefix() + cause
}

/// The stream that carries the payload of a completed process: standard
/// output after success, standard error otherwise.
pub open spec fn payload_bytes(exit_code: Option<i32>, stdout: Seq<u8>, stderr: Seq<u8>) -> Seq<
    u8,
> {
    if exit_is_success(exit_code) {
        stdout
    } else {
        stderr
    }
}

/// The outcome of a completed process whose payload decoded to `text`.
pub open spec fn outcome_of_exit(exit_code: Option<i32>, text: Seq<char>) -> OutcomeView {
    if exit_is_success(exit_code) {
        OutcomeView::Success(text)
    } else {
        OutcomeView::Failure(text)
    }
}

/// The outcome that a report stands for.
pub open spec fn outcome_of_report(report: ReportView) -> OutcomeView {
    match report {
        ReportView::NotStarted { cause } => OutcomeView::LaunchError(launch_error_text(cause)),
        ReportView::Completed { exit_code, stdout, stderr } => outcome_of_exit(
            exit_code,
            lossy_text(payload_bytes(exit_code, stdout, stderr)),
        ),
    }
}

/// The outcome as the pair of result and error text that callers display:
/// only success is `Ok`, and both kinds of failure keep their text.
pub open spec fn result_of_outcome(outcome: OutcomeView) -> Result<Seq<char>, Seq<char>> {
    match outcome {
        OutcomeView::Success(text) => Ok(text),
        OutcomeView::Failure(text) => Err(text),
        OutcomeView::LaunchError(text) => Err(text),
    }
}

/// A result of strings as a result of texts.
pub open spec fn result_texts(result: Result<String, String>) -> Result<Seq<char>, Seq<char>> {
    match result {
        Ok(text) => Ok(text@),
        Err(text) => Err(text@),
    }
}

/// Tells whether a process with this exit code succeeded.
pub fn exit_succeeded(exit_code: Option<i32>) -> (ok: bool)
    ensures
        ok == exit_is_success(exit_code),
{
    match exit_code {
        Some(code) => code == 0,
        None => false,
    }
}

/// Builds the message of a launch error from the platform's description.
pub fn launch_error_message(cause: &str) -> (message: String)
    ensures
        message@ == launch_error_text(cause@),
        message@.len() == 23 + cause@.len(),
{
    proof {
        reveal_strlit("Failed to execute hdc: ");
    }
    String::from_str("Failed to execute hdc: ").concat(cause)
}

impl ExecutionOutcome {
    /// The outcome of a process that ended with `exit_code` and whose
    /// payload stream decoded to `text`. The exit code decides only between
    /// success and failure; its value is not kept.
    pub fn from_exit(exit_code: Option<i32>, text: String) -> (outcome: ExecutionOutcome)
        ensures
            outcome@ == outcome_of_exit(exit_code, text@),
    {
        if exit_succeeded(exit_code) {
            ExecutionOutcome::Success(text)
        } else {
            ExecutionOutcome::Failure(text)
        }
    }

    /// The outcome for an executable that could not be started.
    pub fn from_launch_failure(cause: &str) -> (outcome: ExecutionOutcome)
        ensures
            outcome@ == OutcomeView::LaunchError(launch_error_text(cause@)),
    {
        ExecutionOutcome::LaunchError(launch_error_message(cause))
    }

    /// Turns the outcome into the result that callers display.
    pub fn into_result(self) -> (result: Result<String, String>)
        ensures
            result_texts(result) == result_of_outcome(self@),
    {
        match self {
            ExecutionOutcome::Success(text) => Ok(text),
            ExecutionOutcome::Failure(text) => Err(text),
            ExecutionOutcome::LaunchError(text) => Err(text),
        }
    }
}

/// Classifies one spawn attempt. A process that never started gives a
/// launch error with the cause in its message; one that exited with status
/// zero gives its standard output; any other end gives its standard error.
/// Both streams are decoded lossily, so malformed bytes never fail.
pub fn classify(report: LaunchReport) -> (outcome: ExecutionOutcome)
    ensures
        outcome@ == outcome_of_report(report@),
{
    match report {
        LaunchReport::NotStarted { cause } => ExecutionOutcome::from_launch_failure(
            cause.as_str(),
        ),
        LaunchReport::Completed { exit_code, stdout, stderr } => {
            let payload = if exit_succeeded(exit_code) {
                stdout
            } else {
                stderr
            };
            let text = decode_lossy(payload.as_slice());
            ExecutionOutcome::from_exit(exit_code, text)
        },
    }
}

} // verus!
