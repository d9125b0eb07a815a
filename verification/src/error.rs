//! The errors that the library reports.

use vstd::prelude::*;
use vstd::string::*;

verus! {

/// What went wrong, by kind.
#[derive(Clone, Copy, Debug, PartialEq, Eq, Structural)]
pub enum ErrorKind {
    /// A value that the operation needs is missing from its configuration.
    Configuration,
    /// A tool that was run ended without success.
    Process,
    /// Output held neither the marker nor the field that was looked for.
    Parse,
    /// No record answers to the identifier.
    NotFound,
    /// The container service failed.
    Infrastructure,
    /// The record is not in a state in which the operation is permitted.
    Precondition,
    /// The file system refused a request, or a tool could not be started.
    Io,
}

/// An error: its kind and the text for the operator.
#[derive(Debug)]
pub struct RaasError {
    pub kind: ErrorKind,
    pub message: String,
}

/// The mathematical value of a `RaasError`.
pub struct RaasErrorView {
    pub kind: ErrorKind,
    pub message: Seq<char>,
}

impl View for RaasError {
    type V = RaasErrorView;

    open spec fn view(&self) -> RaasErrorView {
        RaasErrorView { kind: self.kind, message: self.message@ }
    }
}

impl Clone for RaasError {
    fn clone(&self) -> (r: Self)
        ensures
            r@ == self@,
    {
        RaasError { kind: self.kind, message: self.message.clone() }
    }
}

impl RaasError {
    /// An error of `kind` with the text `message`.
    pub fn new(kind: ErrorKind, message: &str) -> (e: Self)
        ensures
            e@ == (RaasErrorView { kind, message: message@ }),
    {
        RaasError { kind, message: String::from_str(message) }
    }

    /// An error of `kind` whose text is `prefix` followed by `detail`.
    pub fn with_detail(kind: ErrorKind, prefix: &str, detail: &str) -> (e: Self)
        ensures
            e@ == (RaasErrorView { kind, message: prefix@ + detail@ }),
    {
        RaasError { kind, message: String::from_str(prefix).concat(detail) }
    }

    /// The text of the error.
    pub fn to_string(&self) -> (s: String)
        ensures
            s@ == self@.message,
    {
        self.message.clone()
    }
}

} // verus!
