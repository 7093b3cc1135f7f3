//! The failures that the operations of this library report.

use vstd::prelude::*;

verus! {

/// What went wrong.
#[derive(Clone, Copy, Debug, PartialEq, Eq, Structural)]
pub enum ErrorKind {
    /// The key generator rejected the seed.
    InvalidSeed,
    /// A string was not valid base58.
    InvalidEncoding,
    /// A decoded identifier was not exactly sixteen bytes long.
    InvalidLength,
    /// A ledger request was not JSON, or lacked a field that the protocol requires.
    MalformedRequest,
    /// The signature could not be computed.
    SigningFailure,
}

/// A failure: its kind, and a detail for the operator to read.
#[derive(Debug, PartialEq, Eq)]
pub struct Error {
    pub kind: ErrorKind,
    pub detail: String,
}

/// The mathematical content of an [`Error`].
pub struct Failure {
    pub kind: ErrorKind,
    pub detail: Seq<char>,
}

impl View for Error {
    type V = Failure;

    open spec fn view(&self) -> Failure {
        Failure { kind: self.kind, detail: self.detail@ }
    }
}

impl Clone for Error {
    fn clone(&self) -> (copy: Error)
        ensures
            copy@ == self@,
    {
        Error { kind: self.kind, detail: self.detail.clone() }
    }
}

impl Error {
    /// A failure of the given kind with the given detail.
    pub fn new(kind: ErrorKind, detail: String) -> (e: Error)
        ensures
            e@ == (Failure { kind, detail: detail@ }),
    {
        Error { kind, detail }
    }

    /// The kind of this failure.
    pub fn kind(&self) -> (kind: ErrorKind)
        ensures
            kind == self@.kind,
    {
        self.kind
    }

    /// The text shown to the operator: the detail, unchanged.
    pub fn message(&self) -> (text: String)
        ensures
            text@ == self@.detail,
    {
        self.detail.clone()
    }
}

} // verus!
