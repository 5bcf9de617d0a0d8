use vstd::prelude::*;
use vstd::string::StringExecFns;

verus! {

/// The kinds of error that the layer tells apart.
#[derive(Debug, Clone, Copy, PartialEq, Eq, Structural)]
pub enum ErrorKind {
    /// The object does not exist; a cache miss.
    ObjectNotFound,
    /// An encode, decode or I/O failure inside the layer.
    Unexpected,
    /// Any other failure of a store, passed on unchanged.
    Other,
}

/// An error with its kind, a message, and the operation that raised it.
#[derive(Debug, Clone)]
pub struct Error {
    pub kind: ErrorKind,
    pub message: String,
    pub operation: String,
}

impl Error {
    pub fn new(kind: ErrorKind, message: &str, operation: &str) -> (r: Self)
        ensures
            r.kind == kind,
            r.message@ == message@,
            r.operation@ == operation@,
    {
        Error { kind, message: String::from_str(message), operation: String::from_str(operation) }
    }

    pub fn kind(&self) -> (r: ErrorKind)
        ensures
            r == self.kind,
    {
        self.kind
    }
}

} // verus!
