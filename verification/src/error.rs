//! The error type shared by every fallible operation of the crate.

use vstd::prelude::*;
use vstd::string::StringExecFns;

verus! {

/// The ways a bounded read can go wrong, kept deliberately coarse: the
/// interesting detail travels in the error's message.
#[derive(Clone, Copy, Debug, PartialEq, Eq, Structural)]
#[non_exhaustive]
pub enum ErrorKind {
    ReadError,
    IoError,
    LimitReaderOutputBuilderError,
    Utf8Error,
    TryFromIntError,
}

impl ErrorKind {
    /// The fixed description of each kind, as a sequence of characters.
    pub open spec fn describe(self) -> Seq<char> {
        match self {
            ErrorKind::ReadError => "read error"@,
            ErrorKind::IoError => "io error"@,
            ErrorKind::Utf8Error => "invalid utf-8"@,
            ErrorKind::LimitReaderOutputBuilderError => "builder error"@,
            ErrorKind::TryFromIntError => "conversion error"@,
        }
    }

    /// A human-readable description of the kind.
    pub fn as_str(&self) -> (r: &'static str)
        ensures
            r@ == self.describe(),
    {
        match self {
            ErrorKind::ReadError => "read error",
            ErrorKind::IoError => "io error",
            ErrorKind::Utf8Error => "invalid utf-8",
            ErrorKind::LimitReaderOutputBuilderError => "builder error",
            ErrorKind::TryFromIntError => "conversion error",
        }
    }
}

/// Error type carrying a kind and the message of the underlying failure.
#[derive(Debug)]
pub struct Error {
    pub kind: ErrorKind,
    pub detail: String,
}

impl Error {
    /// Build an error from a kind and the message of the failure it wraps.
    pub fn new(kind: ErrorKind, detail: String) -> (e: Error)
        ensures
            e.kind == kind,
            e.detail@ == detail@,
    {
        Self::_new(kind, detail)
    }

    fn _new(kind: ErrorKind, detail: String) -> (e: Error)
        ensures
            e.kind == kind,
            e.detail@ == detail@,
    {
        Error { kind, detail }
    }

    /// The message shown for this error: the wrapped failure's own words,
    /// behind a fixed prefix.
    pub fn message(&self) -> (r: String)
        ensures
            r@ == "Error: "@ + self.detail@,
    {
        let mut s = String::from_str("Error: ");
        s.append(self.detail.as_str());
        s
    }
}

/// Default error for the crate's readers.
pub type LimitReaderError = Error;

} // verus!
