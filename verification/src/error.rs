//! The single error channel of the bridge: every failed invocation is
//! surfaced as one [`CommandError`], never as a crash.

use vstd::prelude::*;
use vstd::string::StringExecFns;

verus! {

/// The three terminal failure kinds of one invocation, each carrying the
/// detail text of what went wrong:
/// - `LaunchFailure`: the external process could not be started at all; the
///   detail is the operating system's own description.
/// - `ExecutionFailure`: the process started but exited unsuccessfully; the
///   detail is its captured standard-error text.
/// - `DecodeFailure`: the process reported success but its output was not a
///   well-formed structured document; the detail is the parser's diagnostic.
///
/// None of the kinds is retried, and none is ever paired with a payload.
#[derive(Debug, Clone, PartialEq, Eq)]
pub enum CommandError {
    LaunchFailure(String),
    ExecutionFailure(String),
    DecodeFailure(String),
}

/// Mathematical image of a [`CommandError`]: the same kind over the detail
/// text as a character sequence.
pub enum ErrorModel {
    Launch(Seq<char>),
    Execution(Seq<char>),
    Decode(Seq<char>),
}

impl View for CommandError {
    type V = ErrorModel;

    open spec fn view(&self) -> ErrorModel {
        match self {
            CommandError::LaunchFailure(d) => ErrorModel::Launch(d@),
            CommandError::ExecutionFailure(d) => ErrorModel::Execution(d@),
            CommandError::DecodeFailure(d) => ErrorModel::Decode(d@),
        }
    }
}

/// The fixed prefix that marks a process that could not be started.
pub open spec fn spec_launch_prefix() -> Seq<char> {
    "could not start the external process: "@
}

/// The fixed prefix that marks a process that ran but exited with an error.
pub open spec fn spec_execution_prefix() -> Seq<char> {
    "the external process failed: "@
}

/// The fixed prefix that marks output that could not be decoded.
pub open spec fn spec_decode_prefix() -> Seq<char> {
    "could not decode the process output: "@
}

impl ErrorModel {
    /// The single descriptive message of an error: a fixed prefix naming the
    /// step that failed, followed by the detail text verbatim.
    pub open spec fn message_text(self) -> Seq<char> {
        match self {
            ErrorModel::Launch(d) => spec_launch_prefix() + d,
            ErrorModel::Execution(d) => spec_execution_prefix() + d,
            ErrorModel::Decode(d) => spec_decode_prefix() + d,
        }
    }
}

impl CommandError {
    /// Render the single descriptive message surfaced to the caller.
    pub fn message(&self) -> (r: String)
        ensures
            r@ == self@.message_text(),
    {
        match self {
            CommandError::LaunchFailure(d) => String::from_str(
                "could not start the external process: ",
            ).concat(d.as_str()),
            CommandError::ExecutionFailure(d) => String::from_str(
                "the external process failed: ",
            ).concat(d.as_str()),
            CommandError::DecodeFailure(d) => String::from_str(
                "could not decode the process output: ",
            ).concat(d.as_str()),
        }
    }
}

} // verus!
