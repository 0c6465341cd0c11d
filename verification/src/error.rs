//! User-visible error taxonomy of the node.

use vstd::prelude::*;

verus! {

/// Everything that can go wrong while discovering, sending or receiving.
///
/// Transport faults arrive from outside the library as plain messages;
/// protocol faults are raised by the library itself.
#[derive(Clone, Debug, PartialEq, Eq)]
pub enum LocalSendError {
    /// File read or write failure, reported by the caller.
    Io { message: String },
    /// Bind, parse, socket or HTTP transport failure.
    Network { message: String },
    /// A port number that the protocol does not allow.
    InvalidPort { message: String },
    /// Device schema validation failure.
    InvalidDevice { message: String },
    /// File metadata schema validation failure.
    InvalidFile { message: String },
    /// The peer speaks another protocol major version.
    VersionMismatch { expected: String, actual: String },
    /// A transfer state machine precondition was violated.
    InvalidState { message: String },
    /// Upload authorization failed.
    InvalidToken,
    /// No session with the given identifier.
    SessionNotFound { session_id: String },
    /// The session does not declare the given file.
    FileNotFound { file_id: String, session_id: String },
    /// A transfer broke down midway.
    TransferFailed { reason: String, session_id: Option<String> },
    /// The receiver already serves another session.
    SessionBlocked,
    /// The receiver did not accept the provided PIN.
    InvalidPin,
    /// The receiver wants a PIN and none was given.
    PinRequired,
    /// The peer refused the operation (HTTP 401 or 403).
    Rejected { status: u16 },
    /// Any other non-2xx reply.
    HttpFailed { status: u16, message: String },
    /// The peer asked us to slow down (HTTP 429).
    RateLimited,
}

impl LocalSendError {
    /// A transport failure with the given description.
    pub fn network(msg: String) -> (r: Self)
        ensures
            r == (LocalSendError::Network { message: msg }),
    {
        LocalSendError::Network { message: msg }
    }

    /// A device schema failure with the given description.
    pub fn invalid_device(msg: String) -> (r: Self)
        ensures
            r == (LocalSendError::InvalidDevice { message: msg }),
    {
        LocalSendError::InvalidDevice { message: msg }
    }

    /// A file schema failure with the given description.
    pub fn invalid_file(msg: String) -> (r: Self)
        ensures
            r == (LocalSendError::InvalidFile { message: msg }),
    {
        LocalSendError::InvalidFile { message: msg }
    }

    /// A state machine violation with the given description.
    pub fn invalid_state(msg: String) -> (r: Self)
        ensures
            r == (LocalSendError::InvalidState { message: msg }),
    {
        LocalSendError::InvalidState { message: msg }
    }

    /// A mid-transfer breakdown, optionally tied to a session.
    pub fn transfer_failed(reason: String, session_id: Option<String>) -> (r: Self)
        ensures
            r == (LocalSendError::TransferFailed { reason: reason, session_id: session_id }),
    {
        LocalSendError::TransferFailed { reason, session_id }
    }

    /// A non-2xx HTTP reply outside the named cases.
    pub fn http_failed(status: u16, message: String) -> (r: Self)
        ensures
            r == (LocalSendError::HttpFailed { status: status, message: message }),
    {
        LocalSendError::HttpFailed { status, message }
    }
}

/// Shorthand for results that fail with [`LocalSendError`].
pub type LsResult<T> = Result<T, LocalSendError>;

} // verus!
