//! What can go wrong with a session, and how it is put into words.

use vstd::prelude::*;
use crate::pty::tmux::{tmux_error_text, TmuxError, TmuxErrorModel};
use crate::text::join_text;

verus! {

/// What was being done to a session when something failed.
#[derive(Clone, Copy, Debug, PartialEq, Eq)]
pub enum Operation {
    /// Bytes were being written to the child.
    Write,
    /// The terminal was being resized.
    Resize,
    /// The child was being killed.
    Kill,
}

/// Which step of bringing up a terminal failed.
#[derive(Clone, Copy, Debug, PartialEq, Eq)]
pub enum SpawnProblem {
    /// No pseudo-terminal could be opened.
    OpenPty,
    /// The command could not be started in the terminal.
    SpawnCommand,
    /// The client that attaches to the backing session could not be started.
    AttachSession,
    /// The terminal's output could not be opened for reading.
    CloneReader,
    /// The terminal's input could not be opened for writing.
    TakeWriter,
}

/// Why an operation of the manager failed.
#[derive(Clone, Debug, PartialEq, Eq)]
pub enum PtyError {
    /// The table has no session of this identity.
    NotFound(String),
    /// A terminal could not be brought up; the text is the system's reason.
    SpawnFailed(SpawnProblem, String),
    /// A lock was found poisoned.
    LockFailed(Operation, String),
    /// The multiplexer was needed and did not serve.
    ExternalToolFailed(TmuxError),
    /// The system call behind the operation failed.
    IoFailed(Operation, String),
}

/// What a [`PtyError`] holds, as text.
pub enum PtyErrorModel {
    NotFound(Seq<char>),
    SpawnFailed(SpawnProblem, Seq<char>),
    LockFailed(Operation, Seq<char>),
    ExternalToolFailed(TmuxErrorModel),
    IoFailed(Operation, Seq<char>),
}

impl DeepView for PtyError {
    type V = PtyErrorModel;

    open spec fn deep_view(&self) -> PtyErrorModel {
        match self {
            PtyError::NotFound(id) => PtyErrorModel::NotFound(id@),
            PtyError::SpawnFailed(problem, why) => PtyErrorModel::SpawnFailed(*problem, why@),
            PtyError::LockFailed(operation, why) => PtyErrorModel::LockFailed(*operation, why@),
            PtyError::ExternalToolFailed(error) => PtyErrorModel::ExternalToolFailed(
                error.deep_view(),
            ),
            PtyError::IoFailed(operation, why) => PtyErrorModel::IoFailed(*operation, why@),
        }
    }
}

/// How the sentence about a failed step of bringing up a terminal begins.
pub open spec fn spawn_problem_text(problem: SpawnProblem) -> Seq<char> {
    match problem {
        SpawnProblem::OpenPty => "Failed to open PTY: "@,
        SpawnProblem::SpawnCommand => "Failed to spawn command: "@,
        SpawnProblem::AttachSession => "Failed to attach to tmux session: "@,
        SpawnProblem::CloneReader => "Failed to clone reader: "@,
        SpawnProblem::TakeWriter => "Failed to take writer: "@,
    }
}

/// How the sentence about a poisoned lock begins.
pub open spec fn lock_text(operation: Operation) -> Seq<char> {
    match operation {
        Operation::Write => "Failed to lock writer: "@,
        Operation::Resize => "Failed to lock master: "@,
        Operation::Kill => "Failed to lock child: "@,
    }
}

/// How the sentence about a failed system call begins.
pub open spec fn io_text(operation: Operation) -> Seq<char> {
    match operation {
        Operation::Write => "Failed to write to PTY: "@,
        Operation::Resize => "Failed to resize PTY: "@,
        Operation::Kill => "Failed to kill process: "@,
    }
}

/// The sentence that describes `error`.
pub open spec fn pty_error_text(error: PtyErrorModel) -> Seq<char> {
    match error {
        PtyErrorModel::NotFound(id) => "Session not found: "@ + id,
        PtyErrorModel::SpawnFailed(problem, why) => spawn_problem_text(problem) + why,
        PtyErrorModel::LockFailed(operation, why) => lock_text(operation) + why,
        PtyErrorModel::ExternalToolFailed(error) => tmux_error_text(error),
        PtyErrorModel::IoFailed(operation, why) => io_text(operation) + why,
    }
}

impl PtyError {
    /// The sentence that describes this error.
    pub fn message(&self) -> (text: String)
        ensures
            text@ == pty_error_text(self.deep_view()),
    {
        match self {
            PtyError::NotFound(id) => join_text("Session not found: ", id),
            PtyError::SpawnFailed(problem, why) => {
                let start = match problem {
                    SpawnProblem::OpenPty => "Failed to open PTY: ",
                    SpawnProblem::SpawnCommand => "Failed to spawn command: ",
                    SpawnProblem::AttachSession => "Failed to attach to tmux session: ",
                    SpawnProblem::CloneReader => "Failed to clone reader: ",
                    SpawnProblem::TakeWriter => "Failed to take writer: ",
                };
                join_text(start, why)
            },
            PtyError::LockFailed(operation, why) => {
                let start = match operation {
                    Operation::Write => "Failed to lock writer: ",
                    Operation::Resize => "Failed to lock master: ",
                    Operation::Kill => "Failed to lock child: ",
                };
                join_text(start, why)
            },
            PtyError::ExternalToolFailed(error) => error.message(),
            PtyError::IoFailed(operation, why) => {
                let start = match operation {
                    Operation::Write => "Failed to write to PTY: ",
                    Operation::Resize => "Failed to resize PTY: ",
                    Operation::Kill => "Failed to kill process: ",
                };
                join_text(start, why)
            },
        }
    }
}

/// How touching a session's terminal or child failed.
#[derive(Clone, Debug, PartialEq, Eq)]
pub enum IoFailure {
    /// The lock around it was poisoned.
    Lock(String),
    /// The system call failed.
    Io(String),
}

/// What an [`IoFailure`] holds, as text.
pub enum IoFailureModel {
    Lock(Seq<char>),
    Io(Seq<char>),
}

impl DeepView for IoFailure {
    type V = IoFailureModel;

    open spec fn deep_view(&self) -> IoFailureModel {
        match self {
            IoFailure::Lock(why) => IoFailureModel::Lock(why@),
            IoFailure::Io(why) => IoFailureModel::Io(why@),
        }
    }
}

/// The error that `failure` during `operation` amounts to.
pub open spec fn io_error_of(operation: Operation, failure: IoFailureModel) -> PtyErrorModel {
    match failure {
        IoFailureModel::Lock(why) => PtyErrorModel::LockFailed(operation, why),
        IoFailureModel::Io(why) => PtyErrorModel::IoFailed(operation, why),
    }
}

/// The error that `failure` during `operation` amounts to.
pub fn io_error(operation: Operation, failure: IoFailure) -> (error: PtyError)
    ensures
        error.deep_view() == io_error_of(operation, failure.deep_view()),
{
    match failure {
        IoFailure::Lock(why) => PtyError::LockFailed(operation, why),
        IoFailure::Io(why) => PtyError::IoFailed(operation, why),
    }
}

} // verus!
