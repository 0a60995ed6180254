use crate::git::{GitFailure, GitStep};
use vstd::prelude::*;

verus! {

/// The kinds of failure the storage side reports.
#[derive(Clone, Copy, Debug, PartialEq, Eq, Structural)]
pub enum ErrorKind {
    InternalFailure,
}

/// A failure of the storage side: its kind, a human-readable message, and,
/// where Git reported it, the failure Git reported (which only the calls into
/// Git make).
#[derive(Debug)]
pub struct Error {
    pub kind: ErrorKind,
    pub message: String,
    pub git: Option<GitFailure>,
}

impl Error {
    /// The failure Git reported that this one comes from, if any: the step
    /// that failed and the detail Git gave.
    pub open spec fn git_failure(&self) -> Option<(GitStep, Seq<char>)> {
        match self.git {
            Some(failure) => Some((failure.failed_step(), failure.reported())),
            None => None,
        }
    }

    pub fn new(kind: ErrorKind, message: String) -> (error: Error)
        ensures
            error.kind == kind,
            error.message@ == message@,
            error.git_failure() is None,
    {
        Error { kind, message, git: None }
    }

    /// This failure, as coming from the failure Git reported.
    pub fn caused_by(self, failure: GitFailure) -> (error: Error)
        ensures
            error.kind == self.kind,
            error.message@ == self.message@,
            error.git_failure() == Some((failure.failed_step(), failure.reported())),
    {
        Error { kind: self.kind, message: self.message, git: Some(failure) }
    }
}

} // verus!
