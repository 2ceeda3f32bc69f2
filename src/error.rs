use vstd::prelude::*;

verus! {

/// What went wrong, by the step at which it went wrong.
#[derive(Clone, Copy, Debug, PartialEq, Eq, Structural)]
pub enum ErrorKind {
    /// A step of the session handshake failed.
    Connection,
    /// The service rejected the query.
    Query,
    /// Advancing the result enumerator failed.
    Enumeration,
    /// The record has no field of the requested name.
    PropertyMissing,
    /// The field's decoded kind is not the kind that was asked for.
    TypeMismatch,
    /// Text could not be converted to a number or a timestamp.
    Parse,
    /// An argument lies outside the range the function accepts.
    InvalidInput,
}

/// An error of the telemetry layer: its kind and a human-readable message.
#[derive(Clone, Debug)]
pub struct WinfetchError(pub ErrorKind, pub String);

pub type WinfetchResult<T> = Result<T, WinfetchError>;

impl WinfetchError {
    /// An error of kind `kind` with the message `message`.
    pub fn new(kind: ErrorKind, message: &str) -> (e: WinfetchError)
        ensures
            e.0 == kind,
            e.1@ == message@,
    {
        WinfetchError(kind, message.to_owned())
    }

    pub fn kind(&self) -> (k: ErrorKind)
        ensures
            k == self.0,
    {
        self.0
    }
}

} // verus!
