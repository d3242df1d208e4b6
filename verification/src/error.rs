//! The protocol's error codes.

use vstd::prelude::*;
use vstd::string::StringExecFns;
use crate::text::{int_text, i32_text};

verus! {

/// The errors of the Maelstrom protocol, each with its numeric code.
#[derive(Debug, Clone, PartialEq, Eq)]
pub enum Error {
    /// Indicates that the requested operation could not be completed within a timeout.
    Timeout,
    /// Use this error to indicate that a requested operation is not supported by
    /// the current implementation. Helpful for stubbing out APIs during development.
    NotSupported(String),
    /// Indicates that the operation definitely cannot be performed at this time--perhaps
    /// because the server is in a read-only state, has not yet been initialized,
    /// believes its peers to be down, and so on. Do not use this error for indeterminate
    /// cases, when the operation may actually have taken place.
    TemporarilyUnavailable,
    /// The client's request did not conform to the server's expectations,
    /// and could not possibly have been processed.
    MalformedRequest,
    /// Indicates that some kind of general, indefinite error occurred.
    Crash,
    /// Indicates that some kind of general, definite error occurred.
    Abort,
    /// The client requested an operation on a key which does not exist
    /// (assuming the operation should not automatically create missing keys).
    KeyDoesNotExist,
    /// The client requested the creation of a key which already exists,
    /// and the server will not overwrite it.
    KeyAlreadyExists,
    /// The requested operation expected some conditions to hold,
    /// and those conditions were not met.
    PreconditionFailed,
    /// The requested transaction has been aborted because of a conflict with
    /// another transaction.
    TxnConflict,
    /// Custom error code for anything you would like to add.
    Custom(i32, String),
}

/// The codes that the protocol gives a meaning of its own.
pub open spec fn is_reserved_code(code: i32) -> bool {
    code == 0 || code == 10 || code == 11 || code == 12 || code == 13 || code == 14
        || code == 20 || code == 21 || code == 22 || code == 30
}

impl Error {
    /// The numeric code of the error.
    pub open spec fn spec_code(self) -> i32 {
        match self {
            Error::Timeout => 0,
            Error::NotSupported(_) => 10,
            Error::TemporarilyUnavailable => 11,
            Error::MalformedRequest => 12,
            Error::Crash => 13,
            Error::Abort => 14,
            Error::KeyDoesNotExist => 20,
            Error::KeyAlreadyExists => 21,
            Error::PreconditionFailed => 22,
            Error::TxnConflict => 30,
            Error::Custom(code, _) => code,
        }
    }

    /// The human-readable text of the error.
    pub open spec fn spec_description(self) -> Seq<char> {
        match self {
            Error::Timeout => "timeout"@,
            Error::NotSupported(t) => t@,
            Error::TemporarilyUnavailable => "temporarily unavailable"@,
            Error::MalformedRequest => "malformed request"@,
            Error::Crash => "crash"@,
            Error::Abort => "abort"@,
            Error::KeyDoesNotExist => "key does not exist"@,
            Error::KeyAlreadyExists => "key already exists"@,
            Error::PreconditionFailed => "precondition failed"@,
            Error::TxnConflict => "txn conflict"@,
            Error::Custom(_, text) => text@,
        }
    }

    /// Two errors agree in everything that the protocol can tell apart:
    /// code, text, and whether the code is a custom one.
    pub open spec fn same_as(self, other: Error) -> bool {
        &&& self.spec_code() == other.spec_code()
        &&& self.spec_description() == other.spec_description()
        &&& (self is Custom) == (other is Custom)
    }

    /// What `error(code): description` prints.
    pub open spec fn spec_display(self) -> Seq<char> {
        "error("@ + int_text(self.spec_code() as int) + "): "@ + self.spec_description()
    }

    /// The error that a code and a text stand for: the reserved codes give their
    /// variants (the text kept only for `NotSupported`), any other code a `Custom` error.
    pub open spec fn decodes(self, code: i32, text: Seq<char>) -> bool {
        &&& self.spec_code() == code
        &&& (self is Custom) == !is_reserved_code(code)
        &&& (code == 10 || !is_reserved_code(code)) ==> self.spec_description() == text
    }

    pub fn code(&self) -> (c: i32)
        ensures
            c == self.spec_code(),
    {
        match self {
            Error::Timeout => 0,
            Error::NotSupported(_) => 10,
            Error::TemporarilyUnavailable => 11,
            Error::MalformedRequest => 12,
            Error::Crash => 13,
            Error::Abort => 14,
            Error::KeyDoesNotExist => 20,
            Error::KeyAlreadyExists => 21,
            Error::PreconditionFailed => 22,
            Error::TxnConflict => 30,
            Error::Custom(code, _) => *code,
        }
    }

    pub fn description(&self) -> (d: &str)
        ensures
            d@ == self.spec_description(),
    {
        match self {
            Error::Timeout => "timeout",
            Error::NotSupported(t) => t.as_str(),
            Error::TemporarilyUnavailable => "temporarily unavailable",
            Error::MalformedRequest => "malformed request",
            Error::Crash => "crash",
            Error::Abort => "abort",
            Error::KeyDoesNotExist => "key does not exist",
            Error::KeyAlreadyExists => "key already exists",
            Error::PreconditionFailed => "precondition failed",
            Error::TxnConflict => "txn conflict",
            Error::Custom(_, text) => text.as_str(),
        }
    }

    /// The text that `Display` prints: `error(code): description`.
    pub fn display_text(&self) -> (s: String)
        ensures
            s@ == self.spec_display(),
    {
        let mut s = String::from_str("error(");
        let code = i32_text(self.code());
        s.append(code.as_str());
        s.append("): ");
        s.append(self.description());
        s
    }

    /// A copy of the error, field by field.
    pub fn duplicate(&self) -> (e: Error)
        ensures
            e == *self,
    {
        match self {
            Error::Timeout => Error::Timeout,
            Error::NotSupported(t) => Error::NotSupported(t.clone()),
            Error::TemporarilyUnavailable => Error::TemporarilyUnavailable,
            Error::MalformedRequest => Error::MalformedRequest,
            Error::Crash => Error::Crash,
            Error::Abort => Error::Abort,
            Error::KeyDoesNotExist => Error::KeyDoesNotExist,
            Error::KeyAlreadyExists => Error::KeyAlreadyExists,
            Error::PreconditionFailed => Error::PreconditionFailed,
            Error::TxnConflict => Error::TxnConflict,
            Error::Custom(code, text) => Error::Custom(*code, text.clone()),
        }
    }

    /// The error that an error response's code and text stand for.
    pub fn from_code(code: i32, text: String) -> (e: Error)
        ensures
            e.decodes(code, text@),
    {
        match code {
            0 => Error::Timeout,
            10 => Error::NotSupported(text),
            11 => Error::TemporarilyUnavailable,
            12 => Error::MalformedRequest,
            13 => Error::Crash,
            14 => Error::Abort,
            20 => Error::KeyDoesNotExist,
            21 => Error::KeyAlreadyExists,
            22 => Error::PreconditionFailed,
            30 => Error::TxnConflict,
            _ => Error::Custom(code, text),
        }
    }
}

/// Decoding an error's own code and description gives back the same error,
/// unless it is a custom error whose code the protocol reserves.
pub proof fn law_code_round_trip(e: Error, decoded: Error)
    requires
        !(e is Custom && is_reserved_code(e.spec_code())),
        decoded.decodes(e.spec_code(), e.spec_description()),
    ensures
        decoded.same_as(e),
{
}

/// The code alone tells apart the errors that carry no text.
pub proof fn law_codes_distinct(a: Error, b: Error)
    requires
        !(a is Custom) && !(a is NotSupported),
        !(b is Custom) && !(b is NotSupported),
        a.spec_code() == b.spec_code(),
    ensures
        a == b,
{
}

} // verus!
