//! Failures that a connection reports to its caller.

use vstd::prelude::*;

verus! {

/// Why the host's transport operation did not complete.
#[derive(Clone, Copy, Debug, PartialEq, Eq, Structural)]
pub enum IoFailure {
    /// The stream ended before the requested bytes had arrived.
    UnexpectedEof,
    /// The socket deadline elapsed first.
    TimedOut,
    /// The operation would have blocked, which is how some platforms report
    /// an elapsed socket deadline.
    WouldBlock,
    /// The peer reset the connection.
    ConnectionReset,
    /// The connection was aborted.
    ConnectionAborted,
    /// The peer no longer reads what is written.
    BrokenPipe,
    /// The platform rejected an argument.
    InvalidInput,
    /// Any other failure of the transport.
    Other,
}

/// Why the authentication collaborator turned the connection down.
#[derive(Clone, Copy, Debug, PartialEq, Eq, Structural)]
pub enum AuthFailure {
    /// The server rejected the credentials.
    Rejected,
    /// The exchange itself broke down.
    Protocol,
}

/// Every failure a connection can surface. Nothing is retried and nothing is
/// recovered silently: each error reaches the immediate caller.
#[derive(Clone, Copy, Debug, PartialEq, Eq, Structural)]
pub enum ConnectionError {
    /// The TCP connection could not be opened.
    Dial(IoFailure),
    /// The encrypted channel could not be established.
    TlsHandshake,
    /// The credentials were rejected, or the authentication exchange failed.
    Authentication(AuthFailure),
    /// A read, write or flush fell short, was reset, or timed out.
    Io(IoFailure),
    /// The platform rejected a requested socket deadline.
    TimeoutConfiguration(IoFailure),
}

impl ConnectionError {
    /// A short description for logs and messages.
    pub fn message(&self) -> (text: &'static str)
        ensures
            text@ == Self::message_of(*self)@,
    {
        match self {
            ConnectionError::Dial(_) => "could not open the TCP connection",
            ConnectionError::TlsHandshake => "could not establish the encrypted channel",
            ConnectionError::Authentication(_) => "authentication failed",
            ConnectionError::Io(_) => "transport read or write failed",
            ConnectionError::TimeoutConfiguration(_) => "socket deadline rejected",
        }
    }

    /// The text that `message` returns.
    pub open spec fn message_of(e: ConnectionError) -> &'static str {
        match e {
            ConnectionError::Dial(_) => "could not open the TCP connection",
            ConnectionError::TlsHandshake => "could not establish the encrypted channel",
            ConnectionError::Authentication(_) => "authentication failed",
            ConnectionError::Io(_) => "transport read or write failed",
            ConnectionError::TimeoutConfiguration(_) => "socket deadline rejected",
        }
    }
}

} // verus!
