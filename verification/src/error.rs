//! Errors raised while a puppet is being constructed.

use vstd::prelude::*;
use vstd::string::StringExecFns;

verus! {

/// Why the construction of a puppet was given up.
#[derive(Clone, Copy, Debug, PartialEq, Eq, Structural)]
pub enum ErrorKind {
    /// The description uses a feature that is recognised but not implemented.
    Unsupported,
    /// The description is structurally malformed.
    Invalid,
}

/// A construction error: its kind and a message for people.
#[derive(Debug)]
pub struct Error {
    kind: ErrorKind,
    msg: String,
}

/// The text that starts the message of an `Unsupported` error.
pub open spec fn unsupported_prefix() -> Seq<char> {
    "model uses unsupported feature: "@
}

/// The text that starts the message of an `Invalid` error.
pub open spec fn invalid_prefix() -> Seq<char> {
    "invalid model: "@
}

impl Error {
    /// The kind of this error.
    pub closed spec fn spec_kind(&self) -> ErrorKind {
        self.kind
    }

    /// The message of this error.
    pub closed spec fn spec_message(&self) -> Seq<char> {
        self.msg@
    }

    /// An error for a feature named by `what` that is not implemented.
    pub fn unsupported(what: &str) -> (e: Error)
        ensures
            e.spec_kind() == ErrorKind::Unsupported,
            e.spec_message() == unsupported_prefix() + what@,
    {
        let msg = String::from_str("model uses unsupported feature: ").concat(what);
        Error { kind: ErrorKind::Unsupported, msg }
    }

    /// An error for a malformed description; `what` says what is wrong.
    pub fn invalid(what: &str) -> (e: Error)
        ensures
            e.spec_kind() == ErrorKind::Invalid,
            e.spec_message() == invalid_prefix() + what@,
    {
        let msg = String::from_str("invalid model: ").concat(what);
        Error { kind: ErrorKind::Invalid, msg }
    }

    /// The kind of this error.
    pub fn kind(&self) -> (k: ErrorKind)
        ensures
            k == self.spec_kind(),
    {
        self.kind
    }

    /// The message of this error.
    pub fn message(&self) -> (m: &str)
        ensures
            m@ == self.spec_message(),
    {
        self.msg.as_str()
    }

    /// The message of this error as an owned string.
    pub fn to_string(&self) -> (m: String)
        ensures
            m@ == self.spec_message(),
    {
        self.msg.clone()
    }
}

} // verus!
