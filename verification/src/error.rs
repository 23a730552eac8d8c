//! The error type shared by every fallible operation.

use vstd::prelude::*;
use vstd::string::*;

verus! {

/// What went wrong, independent of the wording of the message.
#[derive(Clone, Copy, Debug, PartialEq, Eq, Structural)]
pub enum ErrorKind {
    /// The dynamic library could not be opened.
    LoadError,
    /// The library's initialization entry point reported failure.
    InitError,
    /// The factory entry point is missing or handed out no factory.
    IncompatibleInterface,
    /// The object does not offer a required capability.
    InterfaceNotSupported,
    /// The component refused to initialize.
    InitializationFailed,
    /// The processing setup was refused.
    NegotiationFailed,
    /// The factory could not create the requested class.
    CreationFailed,
    /// An operation was asked for in a state that does not allow it.
    PreconditionFailed,
    /// A bounded queue has no room left.
    QueueFull,
    /// The persisted cache could not be read or written.
    IOError,
    /// A class or plugin identifier is not known.
    InvalidIdentifier,
    /// The component answered a call with a failure status.
    CallFailed,
}

/// An error: its kind and a message for the log.
#[derive(Debug)]
pub struct Error {
    pub kind: ErrorKind,
    pub message: String,
}

impl Error {
    /// Whether this error has the given kind and message.
    pub open spec fn is(&self, kind: ErrorKind, message: &str) -> bool {
        self.kind == kind && self.message@ == message@
    }

    pub fn new(kind: ErrorKind, message: &str) -> (e: Self)
        ensures
            e.is(kind, message),
    {
        Self { kind, message: message.to_owned() }
    }

    pub fn message(&self) -> (m: &String)
        ensures
            m@ == self.message@,
    {
        &self.message
    }

    pub fn kind(&self) -> (k: ErrorKind)
        ensures
            k == self.kind,
    {
        self.kind
    }

    /// A copy of this error.
    pub fn duplicate(&self) -> (e: Self)
        ensures
            e.kind == self.kind,
            e.message@ == self.message@,
    {
        Self { kind: self.kind, message: self.message.clone() }
    }
}

} // verus!
