//! The error reported when a launch cannot proceed.

use vstd::prelude::*;

verus! {

/// What went wrong.
#[derive(Clone, Copy, Debug, PartialEq, Eq, Structural)]
pub enum ErrorKind {
    /// No strategy found the terminal's executable.
    ExecutableNotFound,
    /// A terminal configuration the user pointed at could not be parsed.
    ConfigParse,
    /// The generated configuration could not be stored.
    TempFile,
    /// Anything else, described by the message alone.
    Other,
}

/// An error with a human-readable description.
#[derive(Debug)]
pub struct GlrnvimError {
    kind: ErrorKind,
    message: String,
}

impl GlrnvimError {
    /// The kind of this error, for contracts.
    pub closed spec fn spec_kind(&self) -> ErrorKind {
        self.kind
    }

    /// The description of this error, for contracts.
    pub closed spec fn spec_message(&self) -> Seq<char> {
        self.message@
    }

    /// An error of kind `Other` with the given description.
    pub fn new(message: String) -> (e: Self)
        ensures
            e.spec_kind() == ErrorKind::Other,
            e.spec_message() == message@,
    {
        Self { kind: ErrorKind::Other, message }
    }

    /// An error of the given kind with the given description.
    pub fn with_kind(kind: ErrorKind, message: String) -> (e: Self)
        ensures
            e.spec_kind() == kind,
            e.spec_message() == message@,
    {
        Self { kind, message }
    }

    /// The kind of this error.
    pub fn kind(&self) -> (k: ErrorKind)
        ensures
            k == self.spec_kind(),
    {
        self.kind
    }

    /// The description of this error.
    pub fn message(&self) -> (m: String)
        ensures
            m@ == self.spec_message(),
    {
        self.message.clone()
    }
}

} // verus!
