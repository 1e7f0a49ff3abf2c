use vstd::prelude::*;

verus! {

/// The classes of failure that the session layer reports.
#[derive(Clone, Copy, Debug, PartialEq, Eq, Structural)]
pub enum ErrorKind {
    /// A socket, bind or accept failure, or a fault on a channel's inbound stream.
    Transport,
    /// A transaction that found no matching response (timeout, retransmissions exhausted).
    Transaction,
    /// A handler answered an indication with a reply-bearing action.
    ContractViolation,
    /// A command was sent after the driver that serves it had gone.
    ChannelUnavailable,
    /// A server whose socket is expected to live forever stopped.
    UnexpectedTermination,
    /// Anything else.
    Other,
}

/// An error of the session layer.
#[derive(Clone, Copy, Debug, PartialEq, Eq, Structural)]
pub struct Error {
    pub kind: ErrorKind,
}

impl Error {
    /// Makes an error of the given kind.
    pub fn new(kind: ErrorKind) -> (r: Error)
        ensures
            r.kind == kind,
    {
        Error { kind }
    }

    /// The kind of this error.
    pub fn kind(&self) -> (r: ErrorKind)
        ensures
            r == self.kind,
    {
        self.kind
    }
}

/// A result whose error is this library's `Error`.
pub type Result<T> = core::result::Result<T, Error>;

} // verus!
