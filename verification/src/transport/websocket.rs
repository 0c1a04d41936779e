//! The decisions of the WebSocket transport: where to connect, what to offer
//! in the opening handshake, which encoding the router picked, and what to do
//! with each frame.

use vstd::prelude::*;
use vstd::slice::slice_to_vec;
use vstd::string::{StrSliceExecFns, StringExecFns};
use vstd::utf8::{encode_utf8, valid_utf8};
use crate::config::ClientConfig;
use crate::serializer::{by_subprotocol, subprotocol, SerializerType};
use crate::text::{folded, folds_to, same_text};
use crate::transport::TransportError;

verus! {

/// The serialization of the URL that `url` parses to, when it parses.
pub uninterp spec fn parsed_serialization(url: Seq<char>) -> Option<Seq<char>>;

/// The scheme of the URL that `url` parses to, when it parses.
pub uninterp spec fn parsed_scheme(url: Seq<char>) -> Option<Seq<char>>;

/// The host, as it stands in the serialization, of the URL that `url` parses
/// to, when it parses and has a host.
pub uninterp spec fn parsed_host_str(url: Seq<char>) -> Option<Seq<char>>;

/// The displayed form of the host of the URL that `url` parses to, when it
/// parses and has a host.
pub uninterp spec fn parsed_host(url: Seq<char>) -> Option<Seq<char>>;

/// The port of the URL that `url` parses to, or the default port of its
/// scheme, when it parses and either is known.
pub uninterp spec fn parsed_port(url: Seq<char>) -> Option<u16>;

/// The Unicode serialization of the origin of the URL that `url` parses to,
/// when it parses.
pub uninterp spec fn parsed_origin(url: Seq<char>) -> Option<Seq<char>>;

/// The characters of an optional string.
pub open spec fn text_of(s: Option<String>) -> Option<Seq<char>> {
    match s {
        Some(t) => Some(t@),
        None => None,
    }
}

/// `url::Url::parse` followed by `Url::as_str`: the serialization of the
/// parsed URL, or nothing when the text is not a URL.
#[verifier::external_body]
fn url_serialization(url: &str) -> (r: Option<String>)
    ensures
        text_of(r) == parsed_serialization(url@),
{
    match url::Url::parse(url) {
        Ok(u) => Some(u.as_str().to_owned()),
        Err(_) => None,
    }
}

/// `url::Url::parse` followed by `Url::scheme`: the scheme of the parsed
/// URL, or nothing when the text is not a URL.
#[verifier::external_body]
fn url_scheme(url: &str) -> (r: Option<String>)
    ensures
        text_of(r) == parsed_scheme(url@),
{
    match url::Url::parse(url) {
        Ok(u) => Some(u.scheme().to_owned()),
        Err(_) => None,
    }
}

/// `url::Url::parse` followed by `Url::host_str`: the host of the parsed URL
/// as serialized, or nothing when the text is not a URL or names no host.
#[verifier::external_body]
fn url_host_str(url: &str) -> (r: Option<String>)
    ensures
        text_of(r) == parsed_host_str(url@),
{
    match url::Url::parse(url) {
        Ok(u) => u.host_str().map(|h| h.to_owned()),
        Err(_) => None,
    }
}

/// `url::Url::parse` followed by `Url::host` and its `to_string`: the host of
/// the parsed URL as displayed, or nothing when the text is not a URL or
/// names no host.
#[verifier::external_body]
fn url_host(url: &str) -> (r: Option<String>)
    ensures
        text_of(r) == parsed_host(url@),
{
    match url::Url::parse(url) {
        Ok(u) => u.host().map(|h| h.to_string()),
        Err(_) => None,
    }
}

/// `url::Url::parse` followed by `Url::port_or_known_default`: the port of
/// the parsed URL or the default of its scheme, or nothing when the text is
/// not a URL or neither is known.
#[verifier::external_body]
fn url_port(url: &str) -> (r: Option<u16>)
    ensures
        r == parsed_port(url@),
{
    match url::Url::parse(url) {
        Ok(u) => u.port_or_known_default(),
        Err(_) => None,
    }
}

/// `url::Url::parse` followed by `Url::origin` and
/// `Origin::unicode_serialization`: the origin of the parsed URL in its
/// Unicode form, or nothing when the text is not a URL.
#[verifier::external_body]
fn url_origin(url: &str) -> (r: Option<String>)
    ensures
        text_of(r) == parsed_origin(url@),
{
    match url::Url::parse(url) {
        Ok(u) => Some(u.origin().unicode_serialization()),
        Err(_) => None,
    }
}

/// Where a WebSocket connection goes and how it presents itself.
#[derive(Debug)]
pub struct Endpoint {
    /// The request target of the opening handshake.
    pub uri: String,
    /// Whether the socket is wrapped in TLS.
    pub secure: bool,
    /// The host to open the socket to.
    pub host: String,
    /// The port to open the socket to.
    pub port: u16,
    /// The value of the `Host` header.
    pub host_header: String,
    /// The value of the `Origin` header.
    pub origin: String,
}

/// Whether the parts of a URL name a WebSocket endpoint: the scheme is `ws`
/// or `wss`, and serialization, host, port and origin are all known.
pub open spec fn names_endpoint(
    uri: Option<Seq<char>>,
    scheme: Option<Seq<char>>,
    host_str: Option<Seq<char>>,
    host: Option<Seq<char>>,
    port: Option<u16>,
    origin: Option<Seq<char>>,
) -> bool {
    &&& uri is Some
    &&& host_str is Some
    &&& host is Some
    &&& port is Some
    &&& origin is Some
    &&& (scheme == Some("ws"@) || scheme == Some("wss"@))
}

/// Whether `e` is the endpoint that the given parts of a URL name.
pub open spec fn endpoint_matches(
    e: Endpoint,
    uri: Option<Seq<char>>,
    scheme: Option<Seq<char>>,
    host_str: Option<Seq<char>>,
    host: Option<Seq<char>>,
    port: Option<u16>,
    origin: Option<Seq<char>>,
) -> bool {
    &&& Some(e.uri@) == uri
    &&& e.secure == (scheme == Some("wss"@))
    &&& Some(e.host@) == host_str
    &&& Some(e.port) == port
    &&& Some(e.host_header@) == host
    &&& Some(e.origin@) == origin
}

/// Assembles an endpoint from the parts of a URL, where they name one.
pub fn endpoint_from_parts(
    uri: Option<String>,
    scheme: Option<String>,
    host_str: Option<String>,
    host: Option<String>,
    port: Option<u16>,
    origin: Option<String>,
) -> (r: Option<Endpoint>)
    ensures
        r is Some <==> names_endpoint(
            text_of(uri),
            text_of(scheme),
            text_of(host_str),
            text_of(host),
            port,
            text_of(origin),
        ),
        r matches Some(e) ==> endpoint_matches(
            e,
            text_of(uri),
            text_of(scheme),
            text_of(host_str),
            text_of(host),
            port,
            text_of(origin),
        ),
{
    let secure: bool = match &scheme {
        Some(s) => {
            if same_text(s.as_str(), "wss") {
                true
            } else if same_text(s.as_str(), "ws") {
                false
            } else {
                return None;
            }
        },
        None => {
            return None;
        },
    };
    match (uri, host_str, host, port, origin) {
        (Some(uri), Some(host), Some(host_header), Some(port), Some(origin)) => Some(
            Endpoint { uri, secure, host, port, host_header, origin },
        ),
        _ => None,
    }
}

/// Reads the endpoint that a URL names. There is none when the text is not a
/// URL, when its scheme is neither `ws` nor `wss`, or when it names no host.
/// The other parts are read only of a URL with one of the two schemes.
pub fn resolve_endpoint(url: &str) -> (r: Option<Endpoint>)
    ensures
        r is Some <==> names_endpoint(
            parsed_serialization(url@),
            parsed_scheme(url@),
            parsed_host_str(url@),
            parsed_host(url@),
            parsed_port(url@),
            parsed_origin(url@),
        ),
        r matches Some(e) ==> endpoint_matches(
            e,
            parsed_serialization(url@),
            parsed_scheme(url@),
            parsed_host_str(url@),
            parsed_host(url@),
            parsed_port(url@),
            parsed_origin(url@),
        ),
{
    let scheme = url_scheme(url);
    let websocket = match &scheme {
        Some(s) => same_text(s.as_str(), "ws") || same_text(s.as_str(), "wss"),
        None => false,
    };
    if !websocket {
        return None;
    }
    endpoint_from_parts(
        url_serialization(url),
        scheme,
        url_host_str(url),
        url_host(url),
        url_port(url),
        url_origin(url),
    )
}

/// The names of the offered encodings, separated by commas.
pub open spec fn offered_protocols(serializers: Seq<SerializerType>) -> Seq<char>
    decreases serializers.len(),
{
    if serializers.len() == 0 {
        Seq::empty()
    } else if serializers.len() == 1 {
        subprotocol(serializers[0])
    } else {
        offered_protocols(serializers.drop_last()) + ","@ + subprotocol(serializers.last())
    }
}

/// Computes the value of the subprotocol header.
pub fn protocol_list(serializers: &Vec<SerializerType>) -> (r: String)
    ensures
        r@ == offered_protocols(serializers@),
{
    let mut out: String = String::new();
    let mut i: usize = 0;
    while i < serializers.len()
        invariant
            i <= serializers.len(),
            out@ == offered_protocols(serializers@.take(i as int)),
        decreases serializers.len() - i,
    {
        proof {
            assert(serializers@.take(i + 1).drop_last() == serializers@.take(i as int));
            assert(serializers@.take(i + 1).last() == serializers@[i as int]);
        }
        if i > 0 {
            out.append(",");
        } else {
            assert(out@ + subprotocol(serializers@[0]) == subprotocol(serializers@[0]));
        }
        out.append(serializers[i].to_str());
        i += 1;
    }
    assert(serializers@.take(i as int) == serializers@);
    out
}

/// The characters of each name and value of a list of headers.
pub open spec fn header_texts(headers: Seq<(String, String)>) -> Seq<(Seq<char>, Seq<char>)> {
    Seq::new(headers.len(), |i: int| (headers[i].0@, headers[i].1@))
}

/// Appending a header appends its texts.
pub proof fn lemma_header_texts_push(headers: Seq<(String, String)>, header: (String, String))
    ensures
        header_texts(headers.push(header)) == header_texts(headers).push((header.0@, header.1@)),
{
}

/// The headers of the opening handshake, in the order in which they are
/// sent: the agent, if one is announced; the offered encodings; the key; the
/// protocol version; host and origin; the upgrade request; then the further
/// headers of the configuration.
pub open spec fn opening_headers(
    agent: Seq<char>,
    protocols: Seq<char>,
    key: Seq<char>,
    host: Seq<char>,
    origin: Seq<char>,
    further: Seq<(Seq<char>, Seq<char>)>,
) -> Seq<(Seq<char>, Seq<char>)> {
    let announced = if agent.len() > 0 {
        seq![("User-Agent"@, agent)]
    } else {
        Seq::empty()
    };
    announced + seq![
        ("Sec-WebSocket-Protocol"@, protocols),
        ("Sec-WebSocket-Key"@, key),
        ("Sec-WebSocket-Version"@, "13"@),
        ("Host"@, host),
        ("Origin"@, origin),
        ("Upgrade"@, "websocket"@),
        ("Connection"@, "Upgrade"@),
    ] + further
}

/// Builds the headers of the opening handshake for a given key.
pub fn opening_request(endpoint: &Endpoint, config: &ClientConfig, key: String) -> (r: Vec<
    (String, String),
>)
    ensures
        header_texts(r@) == opening_headers(
            config.agent(),
            offered_protocols(config.serializers()),
            key@,
            endpoint.host_header@,
            endpoint.origin@,
            header_texts(config.websocket_headers()),
        ),
{
    let mut out: Vec<(String, String)> = Vec::new();
    let agent = config.get_agent();
    if !agent.is_empty() {
        out.push(("User-Agent".to_owned(), agent.to_owned()));
    }
    let ghost announced = header_texts(out@);
    out.push(("Sec-WebSocket-Protocol".to_owned(), protocol_list(config.get_serializers())));
    out.push(("Sec-WebSocket-Key".to_owned(), key));
    out.push(("Sec-WebSocket-Version".to_owned(), "13".to_owned()));
    out.push(("Host".to_owned(), endpoint.host_header.clone()));
    out.push(("Origin".to_owned(), endpoint.origin.clone()));
    out.push(("Upgrade".to_owned(), "websocket".to_owned()));
    out.push(("Connection".to_owned(), "Upgrade".to_owned()));
    let ghost fixed = header_texts(out@);
    let further = config.get_websocket_headers();
    let mut i: usize = 0;
    while i < further.len()
        invariant
            i <= further.len(),
            header_texts(out@) == fixed + header_texts(further@.take(i as int)),
        decreases further.len() - i,
    {
        let name = further[i].0.clone();
        let value = further[i].1.clone();
        proof {
            let copied = further@.take(i as int);
            assert(further@.take(i + 1) == copied.push(further@[i as int]));
            lemma_header_texts_push(out@, (name, value));
            lemma_header_texts_push(copied, further@[i as int]);
            assert((fixed + header_texts(copied)).push((name@, value@)) == fixed + header_texts(
                copied,
            ).push((name@, value@)));
        }
        out.push((name, value));
        i += 1;
    }
    assert(further@.take(i as int) == further@);
    assert(fixed == opening_headers(
        config.agent(),
        offered_protocols(config.serializers()),
        key@,
        endpoint.host_header@,
        endpoint.origin@,
        Seq::empty(),
    ));
    out
}

/// `tokio_tungstenite::tungstenite::handshake::client::generate_key`: a
/// random key for the opening handshake, sixteen random bytes in base64 and
/// so 24 characters long.
#[verifier::external_body]
fn fresh_key() -> (key: String)
    ensures
        key@.len() == 24,
{
    tokio_tungstenite::tungstenite::handshake::client::generate_key()
}

/// Builds the headers of the opening handshake with a fresh random key.
pub fn fresh_opening_request(endpoint: &Endpoint, config: &ClientConfig) -> (r: Vec<
    (String, String),
>)
    ensures
        exists|key: Seq<char>|
            key.len() == 24 && header_texts(r@) == #[trigger] opening_headers(
                config.agent(),
                offered_protocols(config.serializers()),
                key,
                endpoint.host_header@,
                endpoint.origin@,
                header_texts(config.websocket_headers()),
            ),
{
    opening_request(endpoint, config, fresh_key())
}

/// Whether a header of the response names the encoding that the router
/// picked: its name reads `sec-websocket-protocol` in any ASCII case, and its
/// value is text that names a known encoding.
pub open spec fn names_encoding(name: Seq<char>, value: Option<Seq<char>>) -> bool {
    &&& value is Some
    &&& folded(name) == "sec-websocket-protocol"@
    &&& by_subprotocol(value->0) is Some
}

/// The encoding that the first header naming one names.
pub open spec fn picked_encoding(headers: Seq<(String, Option<String>)>) -> Option<
    SerializerType,
>
    decreases headers.len(),
{
    if headers.len() == 0 {
        None
    } else if names_encoding(headers[0].0@, text_of(headers[0].1)) {
        by_subprotocol(headers[0].1->0@)
    } else {
        picked_encoding(headers.drop_first())
    }
}

/// Finds the encoding that the router picked among the headers of its
/// response. A header whose value is not text is given without a value.
pub fn pick_serializer(headers: &Vec<(String, Option<String>)>) -> (r: Result<
    SerializerType,
    TransportError,
>)
    ensures
        match picked_encoding(headers@) {
            Some(s) => r == Ok::<SerializerType, TransportError>(s),
            None => r matches Err(TransportError::SerializerNotSupported(name)) && name@
                == "<unknown>"@,
        },
{
    let mut i: usize = 0;
    assert(headers@.skip(0) == headers@);
    while i < headers.len()
        invariant
            i <= headers.len(),
            picked_encoding(headers@) == picked_encoding(headers@.skip(i as int)),
        decreases headers.len() - i,
    {
        proof {
            assert(headers@.skip(i as int).drop_first() == headers@.skip(i + 1));
        }
        match &headers[i].1 {
            Some(value) => {
                if folds_to(headers[i].0.as_str(), "sec-websocket-protocol") {
                    match SerializerType::from_str(value.as_str()) {
                        Ok(s) => {
                            return Ok(s);
                        },
                        Err(_) => {},
                    }
                }
            },
            None => {},
        }
        i += 1;
    }
    Err(TransportError::SerializerNotSupported("<unknown>".to_owned()))
}

/// A WebSocket message, as far as the transport tells them apart.
#[derive(Debug)]
pub enum Frame {
    Text(String),
    Binary(Vec<u8>),
    Ping(Vec<u8>),
    Pong(Vec<u8>),
    Close,
    Raw,
}

/// `std::str::from_utf8`: the text whose UTF-8 encoding the bytes are, or
/// nothing when they are not valid UTF-8.
#[verifier::external_body]
fn text_from_utf8(bytes: &[u8]) -> (r: Option<String>)
    ensures
        r is Some <==> valid_utf8(bytes@),
        r matches Some(s) ==> encode_utf8(s@) == bytes@,
{
    match std::str::from_utf8(bytes) {
        Ok(s) => Some(s.to_owned()),
        Err(_) => None,
    }
}

/// Frames an encoded message for sending: as a binary frame that holds the
/// bytes on a binary connection, else as a text frame whose text has the
/// bytes as its UTF-8 encoding. Bytes that are not valid UTF-8 cannot be
/// framed as text.
pub fn outgoing_frame(is_bin: bool, data: &[u8]) -> (r: Option<Frame>)
    ensures
        is_bin ==> (r matches Some(Frame::Binary(b)) && b@ == data@),
        !is_bin && valid_utf8(data@) ==> (r matches Some(Frame::Text(s)) && encode_utf8(s@)
            == data@),
        !is_bin && !valid_utf8(data@) ==> r is None,
{
    if is_bin {
        Some(Frame::Binary(slice_to_vec(data)))
    } else {
        match text_from_utf8(data) {
            Some(s) => Some(Frame::Text(s)),
            None => None,
        }
    }
}

/// Frames an encoded message for sending, or fails the send: bytes that are
/// not valid UTF-8 cannot go out on a text connection.
pub fn frame_to_send(is_bin: bool, data: &[u8]) -> (r: Result<Frame, TransportError>)
    ensures
        !is_bin && !valid_utf8(data@) <==> r == Err::<Frame, TransportError>(
            TransportError::SendFailed,
        ),
        is_bin ==> (r matches Ok(Frame::Binary(b)) && b@ == data@),
        !is_bin && valid_utf8(data@) ==> (r matches Ok(Frame::Text(s)) && encode_utf8(s@)
            == data@),
{
    match outgoing_frame(is_bin, data) {
        Some(frame) => Ok(frame),
        None => Err(TransportError::SendFailed),
    }
}

/// What the stream of a connection yields next.
#[derive(Debug)]
pub enum Incoming {
    /// A message arrived.
    Frame(Frame),
    /// Reading failed.
    Broken,
    /// The stream has ended.
    Ended,
}

/// What the transport does about what the stream yielded.
#[derive(Debug)]
pub enum Reaction {
    /// Hand the payload to the reader as one encoded message.
    Deliver(Vec<u8>),
    /// Answer with a pong that carries the payload, then read on.
    Pong(Vec<u8>),
    /// Give up reading with the error.
    Fail(TransportError),
}

/// Whether `r` is the reaction that `incoming` calls for on a connection
/// that is binary or not. A text frame is delivered only on a text
/// connection, as its UTF-8 bytes; a binary frame only on a binary one; a
/// ping is answered. Any other frame fails the read, as does a stream that
/// fails or ends.
pub open spec fn reaction_fits(is_bin: bool, incoming: Incoming, r: Reaction) -> bool {
    match incoming {
        Incoming::Frame(Frame::Text(s)) => if is_bin {
            r == Reaction::Fail(TransportError::ReceiveFailed)
        } else {
            r matches Reaction::Deliver(p) && p@ == encode_utf8(s@)
        },
        Incoming::Frame(Frame::Binary(b)) => if is_bin {
            r == Reaction::Deliver(b)
        } else {
            r == Reaction::Fail(TransportError::ReceiveFailed)
        },
        Incoming::Frame(Frame::Ping(d)) => r == Reaction::Pong(d),
        Incoming::Frame(_) => r == Reaction::Fail(TransportError::ReceiveFailed),
        Incoming::Broken => r == Reaction::Fail(TransportError::ReceiveFailed),
        Incoming::Ended => r == Reaction::Fail(TransportError::ReceiveFailed),
    }
}

/// Decides what to do about what the stream yielded.
pub fn react(is_bin: bool, incoming: Incoming) -> (r: Reaction)
    ensures
        reaction_fits(is_bin, incoming, r),
{
    match incoming {
        Incoming::Frame(Frame::Text(s)) => {
            if is_bin {
                Reaction::Fail(TransportError::ReceiveFailed)
            } else {
                Reaction::Deliver(s.as_str().as_bytes_vec())
            }
        },
        Incoming::Frame(Frame::Binary(b)) => {
            if is_bin {
                Reaction::Deliver(b)
            } else {
                Reaction::Fail(TransportError::ReceiveFailed)
            }
        },
        Incoming::Frame(Frame::Ping(d)) => Reaction::Pong(d),
        Incoming::Frame(_) => Reaction::Fail(TransportError::ReceiveFailed),
        Incoming::Broken => Reaction::Fail(TransportError::ReceiveFailed),
        Incoming::Ended => Reaction::Fail(TransportError::ReceiveFailed),
    }
}

/// Decides how reading goes on once the answer to a ping was written: it
/// goes on when the pong was sent, and fails when it was not.
pub fn after_pong(sent: bool) -> (r: Option<TransportError>)
    ensures
        sent ==> r is None,
        !sent ==> r == Some(TransportError::ReceiveFailed),
{
    if sent {
        None
    } else {
        Some(TransportError::ReceiveFailed)
    }
}

} // verus!
