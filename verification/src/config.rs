//! What a client is configured with before it connects.

use vstd::prelude::*;
use crate::serializer::SerializerType;

verus! {

/// Settings of a client.
#[derive(Debug)]
pub struct ClientConfig {
    agent: String,
    serializers: Vec<SerializerType>,
    websocket_headers: Vec<(String, String)>,
    ssl_verify: bool,
}

impl ClientConfig {
    /// The agent name announced to the router; empty when none is announced.
    pub closed spec fn agent(&self) -> Seq<char> {
        self.agent@
    }

    /// The encodings offered to the router, most preferred first.
    pub closed spec fn serializers(&self) -> Seq<SerializerType> {
        self.serializers@
    }

    /// Further headers for the opening handshake of a WebSocket connection.
    pub closed spec fn websocket_headers(&self) -> Seq<(String, String)> {
        self.websocket_headers@
    }

    /// Whether the certificate of a router is checked on a secure connection.
    pub closed spec fn ssl_verify(&self) -> bool {
        self.ssl_verify
    }

    /// A configuration with the given settings.
    pub fn new(
        agent: String,
        serializers: Vec<SerializerType>,
        websocket_headers: Vec<(String, String)>,
        ssl_verify: bool,
    ) -> (r: Self)
        ensures
            r.agent() == agent@,
            r.serializers() == serializers@,
            r.websocket_headers() == websocket_headers@,
            r.ssl_verify() == ssl_verify,
    {
        ClientConfig { agent, serializers, websocket_headers, ssl_verify }
    }

    pub fn get_ssl_verify(&self) -> (r: bool)
        ensures
            r == self.ssl_verify(),
    {
        self.ssl_verify
    }

    pub fn get_agent(&self) -> (r: &str)
        ensures
            r@ == self.agent(),
    {
        self.agent.as_str()
    }

    pub fn get_serializers(&self) -> (r: &Vec<SerializerType>)
        ensures
            r@ == self.serializers(),
    {
        &self.serializers
    }

    pub fn get_websocket_headers(&self) -> (r: &Vec<(String, String)>)
        ensures
            r@ == self.websocket_headers(),
    {
        &self.websocket_headers
    }
}

} // verus!
