use vstd::prelude::*;

verus! {

/// The ways in which an operation of this library can fail.
#[derive(Clone, Copy, Debug, PartialEq, Eq, Structural)]
pub enum ErrorKind {
    /// A member lacked a required label, or the label held a value that cannot be read.
    Labeling,
    /// A resource lacked a name, an image or an image tag.
    Naming,
    /// A stream could not be acquired, a handshake failed, or a connection broke.
    Channel,
    /// The secrets engine answered with a status, or a body, other than the expected one.
    Protocol,
    /// Every attempt of a bounded retry schedule failed.
    RetryExhausted,
    /// A watch failed, or the watched resource disappeared.
    WaitCondition,
    /// The caller cancelled the run.
    Cancelled,
}

/// A failure: its kind, and a message for the operator.
#[derive(Clone, Debug, PartialEq, Eq)]
pub struct Error {
    pub kind: ErrorKind,
    pub message: String,
}

/// The mathematical model of an [`Error`].
pub struct ErrorView {
    pub kind: ErrorKind,
    pub message: Seq<char>,
}

impl View for Error {
    type V = ErrorView;

    open spec fn view(&self) -> ErrorView {
        ErrorView { kind: self.kind, message: self.message@ }
    }
}

impl ErrorView {
    /// The same failure, with `context` and a colon put before its message.
    pub open spec fn in_context(self, context: Seq<char>) -> ErrorView {
        ErrorView { kind: self.kind, message: context + ": "@ + self.message }
    }
}

impl Error {
    /// A failure of the given kind with the given message.
    pub fn new(kind: ErrorKind, message: &str) -> (error: Error)
        ensures
            error@ == (ErrorView { kind, message: message@ }),
    {
        Error { kind, message: String::from_str(message) }
    }

    /// The message, as the operator reads it.
    pub fn to_string(&self) -> (message: String)
        ensures
            message@ == self@.message,
    {
        self.message.clone()
    }

    /// Puts `context` and a colon before the message; the kind stays.
    pub fn context(self, context: &str) -> (error: Error)
        ensures
            error@ == self@.in_context(context@),
    {
        let message = crate::text::join3(context, ": ", self.message.as_str());
        Error { kind: self.kind, message }
    }
}

} // verus!
