use vstd::prelude::*;

verus! {

/// The classes of failure the listener distinguishes. This is the part of an
/// I/O error that the listener's logic reads: the accept loop classifies a
/// kind as transient or persistent, and configuration failures carry the kind
/// a caller is owed.
#[derive(Clone, Copy, PartialEq, Eq, Structural, Debug)]
pub enum ErrorKind {
    /// The peer refused the connection before the accept completed.
    ConnectionRefused,
    /// The peer aborted the connection during the accept.
    ConnectionAborted,
    /// The peer reset the connection during the accept.
    ConnectionReset,
    /// The supplied configuration or file content was rejected.
    InvalidInput,
    /// Any other failure.
    Other,
}

impl ErrorKind {
    /// Whether the kind reports a race with a peer that disconnected before
    /// or during the accept handshake, rather than a resource or system
    /// fault.
    pub open spec fn is_transient(self) -> bool {
        ||| self == ErrorKind::ConnectionRefused
        ||| self == ErrorKind::ConnectionAborted
        ||| self == ErrorKind::ConnectionReset
    }
}

/// An error surfaced by the listener: a kind together with a human-readable
/// message.
#[derive(Debug)]
pub struct TlsError {
    /// The class of the failure.
    pub kind: ErrorKind,
    /// A human-readable description of the failure.
    pub message: String,
}

impl TlsError {
    /// An error of the given kind with the given message.
    pub fn new(kind: ErrorKind, message: &str) -> (r: TlsError)
        ensures
            r.kind == kind,
            r.message@ == message@,
    {
        TlsError { kind, message: message.to_owned() }
    }

    /// An error reporting rejected configuration input or file content.
    pub fn invalid_input(message: &str) -> (r: TlsError)
        ensures
            r.kind == ErrorKind::InvalidInput,
            r.message@ == message@,
    {
        TlsError::new(ErrorKind::InvalidInput, message)
    }
}

} // verus!
