//! The errors that end a reconciliation pass.

use vstd::prelude::*;
use vstd::string::StringExecFns;

verus! {

/// Why a pass failed. Every error is final: nothing is retried.
#[derive(Debug, PartialEq, Eq)]
pub enum Error {
    /// A command ran and reported failure; what it wrote to standard error is kept.
    CommandFailure { bin_path: String, stderr: String },
    /// A command could not be started.
    ExecutionFailure { command: String, reason: String },
    /// The logger could not be set up.
    Logger { reason: String },
    /// The text given as log level names none.
    LogLevel { log_level: String },
    /// The command line is malformed.
    Usage { message: String },
}

/// An `Error` with its texts as sequences of characters.
pub enum ErrorView {
    CommandFailure { bin_path: Seq<char>, stderr: Seq<char> },
    ExecutionFailure { command: Seq<char>, reason: Seq<char> },
    Logger { reason: Seq<char> },
    LogLevel { log_level: Seq<char> },
    Usage { message: Seq<char> },
}

impl View for Error {
    type V = ErrorView;

    open spec fn view(&self) -> ErrorView {
        match self {
            Error::CommandFailure { bin_path, stderr } => ErrorView::CommandFailure {
                bin_path: bin_path@,
                stderr: stderr@,
            },
            Error::ExecutionFailure { command, reason } => ErrorView::ExecutionFailure {
                command: command@,
                reason: reason@,
            },
            Error::Logger { reason } => ErrorView::Logger { reason: reason@ },
            Error::LogLevel { log_level } => ErrorView::LogLevel { log_level: log_level@ },
            Error::Usage { message } => ErrorView::Usage { message: message@ },
        }
    }
}

impl DeepView for Error {
    type V = ErrorView;

    open spec fn deep_view(&self) -> ErrorView {
        self@
    }
}

impl Clone for Error {
    fn clone(&self) -> (copy: Error)
        ensures
            copy == *self,
    {
        match self {
            Error::CommandFailure { bin_path, stderr } => Error::CommandFailure {
                bin_path: bin_path.clone(),
                stderr: stderr.clone(),
            },
            Error::ExecutionFailure { command, reason } => Error::ExecutionFailure {
                command: command.clone(),
                reason: reason.clone(),
            },
            Error::Logger { reason } => Error::Logger { reason: reason.clone() },
            Error::LogLevel { log_level } => Error::LogLevel { log_level: log_level.clone() },
            Error::Usage { message } => Error::Usage { message: message.clone() },
        }
    }
}

impl ErrorView {
    /// The line that reports the error.
    pub open spec fn message(self) -> Seq<char> {
        match self {
            ErrorView::CommandFailure { bin_path, stderr } => "'"@ + bin_path
                + "' failed - stderr: "@ + stderr,
            ErrorView::ExecutionFailure { command, reason } => "Failed to execute '"@ + command
                + "': "@ + reason,
            ErrorView::Logger { reason } => "Logger setup error: "@ + reason,
            ErrorView::LogLevel { log_level } => "Invalid log level '"@ + log_level + "'"@,
            ErrorView::Usage { message } => message,
        }
    }
}

impl Error {
    /// Renders the error as the one line that is printed for it.
    pub fn message(&self) -> (text: String)
        ensures
            text@ == self@.message(),
    {
        match self {
            Error::CommandFailure { bin_path, stderr } => {
                let mut text = String::from_str("'");
                text.append(bin_path.as_str());
                text.append("' failed - stderr: ");
                text.append(stderr.as_str());
                text
            },
            Error::ExecutionFailure { command, reason } => {
                let mut text = String::from_str("Failed to execute '");
                text.append(command.as_str());
                text.append("': ");
                text.append(reason.as_str());
                text
            },
            Error::Logger { reason } => {
                let mut text = String::from_str("Logger setup error: ");
                text.append(reason.as_str());
                text
            },
            Error::LogLevel { log_level } => {
                let mut text = String::from_str("Invalid log level '");
                text.append(log_level.as_str());
                text.append("'");
                text
            },
            Error::Usage { message } => message.clone(),
        }
    }
}

/// A result with its value and its error each taken by its view.
pub open spec fn result_view<T: DeepView, E: DeepView>(result: Result<T, E>) -> Result<T::V, E::V> {
    match result {
        Ok(value) => Ok(value.deep_view()),
        Err(error) => Err(error.deep_view()),
    }
}

/// The exit status of the process for the result of a pass: 0 for success,
/// 1 for any error.
pub open spec fn exit_status(failed: bool) -> i32 {
    if failed {
        1
    } else {
        0
    }
}

/// Computes the exit status of the process for the result of a pass.
pub fn exit_code(outcome: &Result<(), Error>) -> (code: i32)
    ensures
        code == exit_status(outcome is Err),
{
    match outcome {
        Ok(_) => 0,
        Err(_) => 1,
    }
}

} // verus!
