//! Failures of the filesystem and process operations that the helper asks
//! for, and the outcome of one such operation.

use vstd::prelude::*;

verus! {

/// The one distinction among failures that a decision depends on.
#[derive(Clone, Copy, Debug, PartialEq, Eq, Structural)]
pub enum ErrorKind {
    /// The entry that the operation addressed does not exist.
    NotFound,
    /// Any other cause.
    Other,
}

/// A failed operation: its kind and a message for whoever reads the failure.
#[derive(Debug, PartialEq, Eq)]
pub struct IoError {
    pub kind: ErrorKind,
    pub message: String,
}

pub struct IoErrorView {
    pub kind: ErrorKind,
    pub message: Seq<char>,
}

impl View for IoError {
    type V = IoErrorView;

    open spec fn view(&self) -> IoErrorView {
        IoErrorView { kind: self.kind, message: self.message@ }
    }
}

impl Clone for IoError {
    fn clone(&self) -> (copy: Self)
        ensures
            copy@ == self@,
    {
        IoError { kind: self.kind, message: self.message.clone() }
    }
}

impl IoError {
    /// A failure of kind `Other` that carries `message`.
    pub fn other(message: &str) -> (error: IoError)
        ensures
            error@ == (IoErrorView { kind: ErrorKind::Other, message: message@ }),
    {
        IoError { kind: ErrorKind::Other, message: String::from_str(message) }
    }

    /// Whether the failure says that the addressed entry does not exist.
    pub fn is_not_found(&self) -> (found: bool)
        ensures
            found == (self@.kind == ErrorKind::NotFound),
    {
        self.kind == ErrorKind::NotFound
    }
}

/// How an operation that the caller performed has ended.
#[derive(Debug, PartialEq, Eq)]
pub enum Outcome {
    Done,
    Failed(IoError),
}

pub enum OutcomeView {
    Done,
    Failed(IoErrorView),
}

impl View for Outcome {
    type V = OutcomeView;

    open spec fn view(&self) -> OutcomeView {
        match self {
            Outcome::Done => OutcomeView::Done,
            Outcome::Failed(error) => OutcomeView::Failed(error@),
        }
    }
}

/// The view of what a worker or a foreground call ends with.
pub open spec fn result_view(result: Result<(), IoError>) -> Result<(), IoErrorView> {
    match result {
        Ok(()) => Ok(()),
        Err(error) => Err(error@),
    }
}

} // verus!
