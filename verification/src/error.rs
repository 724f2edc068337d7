//! The failures that the store reports.

use vstd::prelude::*;
use vstd::string::*;

verus! {

/// The kind of a failure.
#[derive(Clone, Copy, Debug, PartialEq, Eq, Structural)]
pub enum ErrorKind {
    /// A directory, a context or the index is missing.
    NotFound,
    /// A document is not well-formed.
    ParseError,
    /// A file could not be created, written or removed, or the editor not started.
    IoError,
    /// The prompt was cancelled.
    UserAborted,
}

/// A failure: its kind, and one line that names the path or the name involved.
#[derive(Clone, Debug, PartialEq, Eq)]
pub struct CtxError {
    pub kind: ErrorKind,
    pub message: String,
}

impl CtxError {
    pub fn new(kind: ErrorKind, message: &str) -> (err: Self)
        ensures
            err.kind == kind,
            err.message@ == message@,
    {
        CtxError { kind, message: String::from_str(message) }
    }

    /// The line shown to the user.
    pub fn to_text(&self) -> (text: String)
        ensures
            text@ == self.message@,
    {
        self.message.clone()
    }
}

} // verus!
