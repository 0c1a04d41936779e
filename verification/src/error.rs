//! The ways in which an operation of a client fails.

use vstd::prelude::*;
use crate::common::{WampDict, WampUri};
use crate::message::Payload;

verus! {

/// Why an operation failed.
#[derive(Debug, PartialEq, Eq)]
pub enum WampError {
    /// The transport could not be connected or the handshake failed.
    ConnectionFailed,
    /// A frame could not be written to the transport.
    SendFailed,
    /// No frame could be read from the transport.
    ReceiveFailed,
    /// The router accepted none of the offered encodings.
    SerializerNotSupported,
    /// The peer sent a message that is malformed or not allowed in the state
    /// of the session. The session does not survive this.
    ProtocolViolation,
    /// No answer came before the deadline of the request. The session lives on.
    Timeout,
    /// The operation needs an established session and there is none.
    NotConnected,
    /// The peer answered the request with an error. The session lives on.
    RemoteError { error: WampUri, details: WampDict, payload: Payload },
    /// The session ended while the request was awaiting its answer.
    SessionLost,
    /// The identifier of a new request is that of one still awaiting its
    /// answer.
    DuplicateRequestId,
}

} // verus!
