//! What a run reports: lines of output, then one terminal outcome.

use vstd::prelude::*;

verus! {

/// The terminal classification of a run, over plain text.
pub enum Outcome {
    Success,
    Failed(i32),
    Cancelled,
    SpawnError(Seq<char>),
    ProcessError(Seq<char>),
}

/// One message of a run, over plain text.
pub enum Message {
    Output(Seq<char>),
    Finished(Outcome),
}

/// The result of a build.
#[derive(Debug, PartialEq, Eq)]
pub enum BuildResult {
    /// The process exited with code 0.
    Success,
    /// The process ran and exited with a nonzero code.
    Failed(i32),
    /// The user stopped the build.
    Cancelled,
    /// The process could not be created.
    SpawnError(String),
    /// The exit status itself could not be observed.
    ProcessError(String),
}

impl View for BuildResult {
    type V = Outcome;

    open spec fn view(&self) -> Outcome {
        match self {
            BuildResult::Success => Outcome::Success,
            BuildResult::Failed(code) => Outcome::Failed(*code),
            BuildResult::Cancelled => Outcome::Cancelled,
            BuildResult::SpawnError(text) => Outcome::SpawnError(text@),
            BuildResult::ProcessError(text) => Outcome::ProcessError(text@),
        }
    }
}

impl Clone for BuildResult {
    fn clone(&self) -> (res: Self)
        ensures
            res@ == self@,
    {
        match self {
            BuildResult::Success => BuildResult::Success,
            BuildResult::Failed(code) => BuildResult::Failed(*code),
            BuildResult::Cancelled => BuildResult::Cancelled,
            BuildResult::SpawnError(text) => BuildResult::SpawnError(text.clone()),
            BuildResult::ProcessError(text) => BuildResult::ProcessError(text.clone()),
        }
    }
}

/// Messages sent from the build subprocess to the UI.
#[derive(Debug, PartialEq, Eq)]
pub enum BuildMessage {
    /// A line of output (stdout or stderr).
    Output(String),
    /// Build finished with an exit status.
    Finished(BuildResult),
}

impl View for BuildMessage {
    type V = Message;

    open spec fn view(&self) -> Message {
        match self {
            BuildMessage::Output(line) => Message::Output(line@),
            BuildMessage::Finished(result) => Message::Finished(result@),
        }
    }
}

} // verus!
