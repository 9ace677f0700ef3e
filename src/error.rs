//! Error types

use vstd::prelude::*;

verus! {

/// Kinds of errors
#[derive(Copy, Clone, Debug, PartialEq, Eq, Structural)]
pub enum ErrorKind {
    /// Error in configuration (including a conflicting git remote)
    Config,
    /// Git errors
    Git,
    /// Input/output error
    Io,
    /// Failure of the advisory database or of the hosting API
    RemoteDataSource,
}

/// Fixed description of each kind of error.
pub open spec fn kind_description(kind: ErrorKind) -> Seq<char> {
    match kind {
        ErrorKind::Config => "config error"@,
        ErrorKind::Git => "git error"@,
        ErrorKind::Io => "I/O error"@,
        ErrorKind::RemoteDataSource => "remote data source error"@,
    }
}

/// Text of an error: the kind's description, the message, and the cause if any.
pub open spec fn error_text(kind: ErrorKind, message: Seq<char>, cause: Option<Seq<char>>) -> Seq<char> {
    match cause {
        Some(c) => kind_description(kind) + ": "@ + message + ": "@ + c,
        None => kind_description(kind) + ": "@ + message,
    }
}

impl ErrorKind {
    /// Fixed description of this kind
    pub fn description(&self) -> (r: String)
        ensures
            r@ == kind_description(*self),
    {
        match self {
            ErrorKind::Config => String::from_str("config error"),
            ErrorKind::Git => String::from_str("git error"),
            ErrorKind::Io => String::from_str("I/O error"),
            ErrorKind::RemoteDataSource => String::from_str("remote data source error"),
        }
    }

    /// Create an error of this kind with a message and the wrapped cause
    pub fn context(self, message: String, cause: String) -> (e: Error)
        ensures
            e.kind == self,
            e.message@ == message@,
            e.cause == Some(cause),
    {
        Error { kind: self, message, cause: Some(cause) }
    }

    /// Create an error of this kind with a message and no wrapped cause
    pub fn error(self, message: String) -> (e: Error)
        ensures
            e.kind == self,
            e.message@ == message@,
            e.cause.is_none(),
    {
        Error { kind: self, message, cause: None }
    }
}

/// Error type: a kind, a human-readable message and an optional wrapped cause
#[derive(Clone, Debug)]
pub struct Error {
    /// Kind of the error
    pub kind: ErrorKind,
    /// What failed
    pub message: String,
    /// Message of the underlying failure, if any
    pub cause: Option<String>,
}

impl Error {
    /// Kind of this error
    pub fn kind(&self) -> (r: ErrorKind)
        ensures
            r == self.kind,
    {
        self.kind
    }

    /// Text shown to the operator: the kind's description, the message and the cause
    pub fn to_string(&self) -> (r: String)
        ensures
            r@ == error_text(self.kind, self.message@, match self.cause {
                Some(c) => Some(c@),
                None => None,
            }),
    {
        let mut r = self.kind.description();
        r.append(": ");
        r.append(self.message.as_str());
        match &self.cause {
            Some(c) => {
                r.append(": ");
                r.append(c.as_str());
            },
            None => {},
        }
        r
    }
}

} // verus!
