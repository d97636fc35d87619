//! The failures the engine reports.

use vstd::prelude::*;

verus! {

/// Why an operation failed.
#[derive(Clone, Copy, Debug, PartialEq, Eq, Structural)]
pub enum ErrorKind {
    /// A name, a path or a combination of flags is malformed.
    InvalidInput,
    /// A template, a storage unit or the home directory is missing.
    NotFound,
    /// A template of that name is already present.
    AlreadyExists,
    /// A storage unit is corrupt, a snapshot left its root, or the platform
    /// has no resolution rule.
    Other,
}

/// A failure: its kind and the message shown to the user.
#[derive(Debug)]
pub struct StoreError {
    pub kind: ErrorKind,
    pub message: String,
}

impl StoreError {
    /// A failure of the given kind whose message is `message`.
    pub fn new(kind: ErrorKind, message: &str) -> (out: StoreError)
        ensures
            out.kind == kind,
            out.message@ == message@,
    {
        StoreError { kind, message: message.to_owned() }
    }

    /// The kind of this failure.
    pub fn kind(&self) -> (out: ErrorKind)
        ensures
            out == self.kind,
    {
        self.kind
    }

    /// The message of this failure, as a new string.
    pub fn to_text(&self) -> (out: String)
        ensures
            out@ == self.message@,
    {
        self.message.clone()
    }
}

/// A failure of kind `InvalidInput`.
pub fn invalid_input_error(message: &str) -> (out: StoreError)
    ensures
        out.kind == ErrorKind::InvalidInput,
        out.message@ == message@,
{
    StoreError::new(ErrorKind::InvalidInput, message)
}

/// A failure of kind `NotFound`.
pub fn not_found_error(message: &str) -> (out: StoreError)
    ensures
        out.kind == ErrorKind::NotFound,
        out.message@ == message@,
{
    StoreError::new(ErrorKind::NotFound, message)
}

/// A failure of kind `AlreadyExists`.
pub fn already_exists_error(message: &str) -> (out: StoreError)
    ensures
        out.kind == ErrorKind::AlreadyExists,
        out.message@ == message@,
{
    StoreError::new(ErrorKind::AlreadyExists, message)
}

/// A failure of kind `Other`.
pub fn other_error(message: &str) -> (out: StoreError)
    ensures
        out.kind == ErrorKind::Other,
        out.message@ == message@,
{
    StoreError::new(ErrorKind::Other, message)
}

} // verus!
