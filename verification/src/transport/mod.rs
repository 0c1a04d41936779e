//! Transports that carry encoded messages to and from a router.

use vstd::prelude::*;

pub mod websocket;

verus! {

/// Why a transport operation failed.
#[derive(Debug)]
pub enum TransportError {
    /// The connection or its opening handshake could not be completed.
    ConnectionFailed,
    /// A frame could not be written.
    SendFailed,
    /// No further frame could be read, or the frame that was read was not
    /// one that the connection carries.
    ReceiveFailed,
    /// The peer accepted none of the offered encodings; carries the name it gave.
    SerializerNotSupported(String),
}

} // verus!
