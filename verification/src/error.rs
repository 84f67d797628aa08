//! What can go wrong, and how a run ends.

use crate::timestamp::TimeUpdate;
use vstd::prelude::*;

verus! {

/// A failure met during a run. The operand it concerns is named by its
/// position among the file operands.
#[derive(Clone, Copy, Debug, PartialEq, Eq, Structural)]
pub enum TouchError {
    /// A missing file could not be created. Ends the run.
    CreateFailed { index: usize },
    /// The date operand could not be turned into a point in time. Ends the run.
    DateParseFailed,
    /// The times of one file could not be written. The run goes on.
    ApplyFailed { index: usize, update: TimeUpdate },
}

impl TouchError {
    /// The failures that end the whole run.
    pub open spec fn fatal(self) -> bool {
        !(self is ApplyFailed)
    }

    /// The position of the operand that the failure concerns, if it
    /// concerns one.
    pub open spec fn operand(self) -> Option<int> {
        match self {
            TouchError::CreateFailed { index } => Some(index as int),
            TouchError::DateParseFailed => None,
            TouchError::ApplyFailed { index, .. } => Some(index as int),
        }
    }

    /// The text that introduces the failure on the error stream.
    pub open spec fn spec_message(self) -> Seq<char> {
        match self {
            TouchError::CreateFailed { .. } => "touch: can't create file"@,
            TouchError::DateParseFailed => "touch: error parsing date"@,
            TouchError::ApplyFailed { update: TimeUpdate::Both, .. } =>
                "touch: unable to set file times"@,
            TouchError::ApplyFailed { update: TimeUpdate::AccessOnly, .. } =>
                "touch: unable to set file access time"@,
            TouchError::ApplyFailed { update: TimeUpdate::ModificationOnly, .. } =>
                "touch: unable to set file modification time"@,
        }
    }

    /// Whether the failure ends the whole run.
    pub fn is_fatal(&self) -> (fatal: bool)
        ensures
            fatal == self.fatal(),
    {
        match self {
            TouchError::ApplyFailed { .. } => false,
            _ => true,
        }
    }

    /// The text that introduces the failure on the error stream.
    pub fn message(&self) -> (text: &'static str)
        ensures
            text@ == self.spec_message(),
    {
        match self {
            TouchError::CreateFailed { .. } => "touch: can't create file",
            TouchError::DateParseFailed => "touch: error parsing date",
            TouchError::ApplyFailed { update: TimeUpdate::Both, .. } =>
                "touch: unable to set file times",
            TouchError::ApplyFailed { update: TimeUpdate::AccessOnly, .. } =>
                "touch: unable to set file access time",
            TouchError::ApplyFailed { update: TimeUpdate::ModificationOnly, .. } =>
                "touch: unable to set file modification time",
        }
    }
}

/// How a run ended.
#[derive(Clone, Copy, Debug, PartialEq, Eq, Structural)]
pub enum Outcome {
    /// Every operand was gone through.
    Completed,
    /// There was no file operand, so nothing was done.
    MissingOperand,
    /// A fatal failure ended the run early.
    Failed(TouchError),
}

impl Outcome {
    /// The process exit status that goes with the outcome.
    pub open spec fn spec_exit_status(self) -> int {
        if self is Failed {
            1
        } else {
            0
        }
    }

    /// What is to be said on the output stream about the outcome: a hint
    /// where the file operand is missing.
    pub open spec fn spec_notice(self) -> Option<Seq<char>> {
        match self {
            Outcome::MissingOperand => Some(
                "touch: missing file operand\nTry 'touch --help' for more information"@,
            ),
            _ => None,
        }
    }

    /// What is to be said on the output stream about the outcome: a hint
    /// where the file operand is missing, and nothing otherwise.
    pub fn notice(&self) -> (text: Option<&'static str>)
        ensures
            text is Some <==> self.spec_notice() is Some,
            text matches Some(hint) ==> self.spec_notice() == Some(hint@),
    {
        match self {
            Outcome::MissingOperand => Some(
                "touch: missing file operand\nTry 'touch --help' for more information",
            ),
            _ => None,
        }
    }

    /// The process exit status that goes with the outcome: zero unless a
    /// fatal failure ended the run.
    pub fn exit_status(&self) -> (status: i32)
        ensures
            status == self.spec_exit_status(),
    {
        match self {
            Outcome::Failed(_) => 1,
            _ => 0,
        }
    }
}

} // verus!
