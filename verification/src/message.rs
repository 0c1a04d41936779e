//! The messages of the protocol and their positional form on the wire.

use vstd::prelude::*;
use crate::common::{Arg, WampDict, WampId, WampInteger, WampList, WampUri};

verus! {

// The type codes of the messages, each named after its message.
pub const HELLO: u64 = 1;

pub const WELCOME: u64 = 2;

pub const ABORT: u64 = 3;

pub const GOODBYE: u64 = 6;

pub const ERROR: u64 = 8;

pub const PUBLISH: u64 = 16;

pub const PUBLISHED: u64 = 17;

pub const SUBSCRIBE: u64 = 32;

pub const SUBSCRIBED: u64 = 33;

pub const UNSUBSCRIBE: u64 = 34;

pub const UNSUBSCRIBED: u64 = 35;

pub const EVENT: u64 = 36;

pub const CALL: u64 = 48;

pub const RESULT: u64 = 50;

pub const REGISTER: u64 = 64;

pub const REGISTERED: u64 = 65;

pub const UNREGISTER: u64 = 66;

pub const UNREGISTERED: u64 = 67;

pub const INVOCATION: u64 = 68;

pub const YIELD: u64 = 70;

/// The arguments at the end of a message. Keyword arguments never stand
/// without positional ones before them.
#[derive(Debug, PartialEq, Eq)]
pub enum Payload {
    /// No arguments.
    Empty,
    /// Positional arguments only.
    Positional(WampList),
    /// Positional arguments, then keyword arguments.
    Keyed(WampList, WampDict),
}

/// A message of the protocol.
#[derive(Debug, PartialEq, Eq)]
pub enum Message {
    Hello { realm: WampUri, details: WampDict },
    Welcome { session: WampId, details: WampDict },
    Abort { details: WampDict, reason: WampUri },
    Goodbye { details: WampDict, reason: WampUri },
    Error {
        request_type: WampInteger,
        request: WampId,
        details: WampDict,
        error: WampUri,
        payload: Payload,
    },
    Publish { request: WampId, options: WampDict, topic: WampUri, payload: Payload },
    Published { request: WampId, publication: WampId },
    Subscribe { request: WampId, options: WampDict, topic: WampUri },
    Subscribed { request: WampId, subscription: WampId },
    Unsubscribe { request: WampId, subscription: WampId },
    Unsubscribed { request: WampId },
    Event { subscription: WampId, publication: WampId, details: WampDict, payload: Payload },
    Call { request: WampId, options: WampDict, procedure: WampUri, payload: Payload },
    CallResult { request: WampId, details: WampDict, payload: Payload },
    Register { request: WampId, options: WampDict, procedure: WampUri },
    Registered { request: WampId, registration: WampId },
    Unregister { request: WampId, registration: WampId },
    Unregistered { request: WampId },
    Invocation { request: WampId, registration: WampId, details: WampDict, payload: Payload },
    Yield { request: WampId, options: WampDict, payload: Payload },
}

/// Why a list of values is no message.
#[derive(Debug, PartialEq, Eq)]
pub enum DecodeError {
    /// The list is empty or does not begin with an integer.
    NoTypeCode,
    /// The integer at the head of the list names no message.
    UnknownTypeCode(u64),
    /// The values after the type code are too few, too many or of the wrong
    /// kind for the message that the code names.
    Malformed(u64),
}

/// The values that a payload adds at the end of a message.
pub open spec fn payload_fields(payload: Payload) -> Seq<Arg> {
    match payload {
        Payload::Empty => Seq::empty(),
        Payload::Positional(args) => seq![Arg::List(args)],
        Payload::Keyed(args, kwargs) => seq![Arg::List(args), Arg::Dict(kwargs)],
    }
}

/// The positional form of a message: its type code, then its fields in the
/// order that the protocol fixes.
pub open spec fn encoded(m: Message) -> Seq<Arg> {
    match m {
        Message::Hello { realm, details } => seq![
            Arg::Integer(HELLO),
            Arg::String(realm),
            Arg::Dict(details),
        ],
        Message::Welcome { session, details } => seq![
            Arg::Integer(WELCOME),
            Arg::Integer(session),
            Arg::Dict(details),
        ],
        Message::Abort { details, reason } => seq![
            Arg::Integer(ABORT),
            Arg::Dict(details),
            Arg::String(reason),
        ],
        Message::Goodbye { details, reason } => seq![
            Arg::Integer(GOODBYE),
            Arg::Dict(details),
            Arg::String(reason),
        ],
        Message::Error { request_type, request, details, error, payload } => seq![
            Arg::Integer(ERROR),
            Arg::Integer(request_type),
            Arg::Integer(request),
            Arg::Dict(details),
            Arg::String(error),
        ] + payload_fields(payload),
        Message::Publish { request, options, topic, payload } => seq![
            Arg::Integer(PUBLISH),
            Arg::Integer(request),
            Arg::Dict(options),
            Arg::String(topic),
        ] + payload_fields(payload),
        Message::Published { request, publication } => seq![
            Arg::Integer(PUBLISHED),
            Arg::Integer(request),
            Arg::Integer(publication),
        ],
        Message::Subscribe { request, options, topic } => seq![
            Arg::Integer(SUBSCRIBE),
            Arg::Integer(request),
            Arg::Dict(options),
            Arg::String(topic),
        ],
        Message::Subscribed { request, subscription } => seq![
            Arg::Integer(SUBSCRIBED),
            Arg::Integer(request),
            Arg::Integer(subscription),
        ],
        Message::Unsubscribe { request, subscription } => seq![
            Arg::Integer(UNSUBSCRIBE),
            Arg::Integer(request),
            Arg::Integer(subscription),
        ],
        Message::Unsubscribed { request } => seq![
            Arg::Integer(UNSUBSCRIBED),
            Arg::Integer(request),
        ],
        Message::Event { subscription, publication, details, payload } => seq![
            Arg::Integer(EVENT),
            Arg::Integer(subscription),
            Arg::Integer(publication),
            Arg::Dict(details),
        ] + payload_fields(payload),
        Message::Call { request, options, procedure, payload } => seq![
            Arg::Integer(CALL),
            Arg::Integer(request),
            Arg::Dict(options),
            Arg::String(procedure),
        ] + payload_fields(payload),
        Message::CallResult { request, details, payload } => seq![
            Arg::Integer(RESULT),
            Arg::Integer(request),
            Arg::Dict(details),
        ] + payload_fields(payload),
        Message::Register { request, options, procedure } => seq![
            Arg::Integer(REGISTER),
            Arg::Integer(request),
            Arg::Dict(options),
            Arg::String(procedure),
        ],
        Message::Registered { request, registration } => seq![
            Arg::Integer(REGISTERED),
            Arg::Integer(request),
            Arg::Integer(registration),
        ],
        Message::Unregister { request, registration } => seq![
            Arg::Integer(UNREGISTER),
            Arg::Integer(request),
            Arg::Integer(registration),
        ],
        Message::Unregistered { request } => seq![
            Arg::Integer(UNREGISTERED),
            Arg::Integer(request),
        ],
        Message::Invocation { request, registration, details, payload } => seq![
            Arg::Integer(INVOCATION),
            Arg::Integer(request),
            Arg::Integer(registration),
            Arg::Dict(details),
        ] + payload_fields(payload),
        Message::Yield { request, options, payload } => seq![
            Arg::Integer(YIELD),
            Arg::Integer(request),
            Arg::Dict(options),
        ] + payload_fields(payload),
    }
}

/// Appends a payload to the fields of a message.
fn push_payload(fields: &mut Vec<Arg>, payload: Payload)
    ensures
        final(fields)@ == old(fields)@ + payload_fields(payload),
{
    match payload {
        Payload::Empty => {},
        Payload::Positional(args) => {
            fields.push(Arg::List(args));
        },
        Payload::Keyed(args, kwargs) => {
            fields.push(Arg::List(args));
            fields.push(Arg::Dict(kwargs));
        },
    }
}

/// Puts a message into its positional form.
pub fn encode(m: Message) -> (fields: Vec<Arg>)
    ensures
        fields@ == encoded(m),
{
    let mut fields: Vec<Arg> = Vec::new();
    match m {
        Message::Hello { realm, details } => {
            fields.push(Arg::Integer(HELLO));
            fields.push(Arg::String(realm));
            fields.push(Arg::Dict(details));
        },
        Message::Welcome { session, details } => {
            fields.push(Arg::Integer(WELCOME));
            fields.push(Arg::Integer(session));
            fields.push(Arg::Dict(details));
        },
        Message::Abort { details, reason } => {
            fields.push(Arg::Integer(ABORT));
            fields.push(Arg::Dict(details));
            fields.push(Arg::String(reason));
        },
        Message::Goodbye { details, reason } => {
            fields.push(Arg::Integer(GOODBYE));
            fields.push(Arg::Dict(details));
            fields.push(Arg::String(reason));
        },
        Message::Error { request_type, request, details, error, payload } => {
            fields.push(Arg::Integer(ERROR));
            fields.push(Arg::Integer(request_type));
            fields.push(Arg::Integer(request));
            fields.push(Arg::Dict(details));
            fields.push(Arg::String(error));
            push_payload(&mut fields, payload);
        },
        Message::Publish { request, options, topic, payload } => {
            fields.push(Arg::Integer(PUBLISH));
            fields.push(Arg::Integer(request));
            fields.push(Arg::Dict(options));
            fields.push(Arg::String(topic));
            push_payload(&mut fields, payload);
        },
        Message::Published { request, publication } => {
            fields.push(Arg::Integer(PUBLISHED));
            fields.push(Arg::Integer(request));
            fields.push(Arg::Integer(publication));
        },
        Message::Subscribe { request, options, topic } => {
            fields.push(Arg::Integer(SUBSCRIBE));
            fields.push(Arg::Integer(request));
            fields.push(Arg::Dict(options));
            fields.push(Arg::String(topic));
        },
        Message::Subscribed { request, subscription } => {
            fields.push(Arg::Integer(SUBSCRIBED));
            fields.push(Arg::Integer(request));
            fields.push(Arg::Integer(subscription));
        },
        Message::Unsubscribe { request, subscription } => {
            fields.push(Arg::Integer(UNSUBSCRIBE));
            fields.push(Arg::Integer(request));
            fields.push(Arg::Integer(subscription));
        },
        Message::Unsubscribed { request } => {
            fields.push(Arg::Integer(UNSUBSCRIBED));
            fields.push(Arg::Integer(request));
        },
        Message::Event { subscription, publication, details, payload } => {
            fields.push(Arg::Integer(EVENT));
            fields.push(Arg::Integer(subscription));
            fields.push(Arg::Integer(publication));
            fields.push(Arg::Dict(details));
            push_payload(&mut fields, payload);
        },
        Message::Call { request, options, procedure, payload } => {
            fields.push(Arg::Integer(CALL));
            fields.push(Arg::Integer(request));
            fields.push(Arg::Dict(options));
            fields.push(Arg::String(procedure));
            push_payload(&mut fields, payload);
        },
        Message::CallResult { request, details, payload } => {
            fields.push(Arg::Integer(RESULT));
            fields.push(Arg::Integer(request));
            fields.push(Arg::Dict(details));
            push_payload(&mut fields, payload);
        },
        Message::Register { request, options, procedure } => {
            fields.push(Arg::Integer(REGISTER));
            fields.push(Arg::Integer(request));
            fields.push(Arg::Dict(options));
            fields.push(Arg::String(procedure));
        },
        Message::Registered { request, registration } => {
            fields.push(Arg::Integer(REGISTERED));
            fields.push(Arg::Integer(request));
            fields.push(Arg::Integer(registration));
        },
        Message::Unregister { request, registration } => {
            fields.push(Arg::Integer(UNREGISTER));
            fields.push(Arg::Integer(request));
            fields.push(Arg::Integer(registration));
        },
        Message::Unregistered { request } => {
            fields.push(Arg::Integer(UNREGISTERED));
            fields.push(Arg::Integer(request));
        },
        Message::Invocation { request, registration, details, payload } => {
            fields.push(Arg::Integer(INVOCATION));
            fields.push(Arg::Integer(request));
            fields.push(Arg::Integer(registration));
            fields.push(Arg::Dict(details));
            push_payload(&mut fields, payload);
        },
        Message::Yield { request, options, payload } => {
            fields.push(Arg::Integer(YIELD));
            fields.push(Arg::Integer(request));
            fields.push(Arg::Dict(options));
            push_payload(&mut fields, payload);
        },
    }
    fields
}

/// Whether an integer is the type code of a message.
pub open spec fn known_code(code: u64) -> bool {
    code == HELLO || code == WELCOME || code == ABORT || code == GOODBYE || code == ERROR
        || code == PUBLISH || code == PUBLISHED || code == SUBSCRIBE || code == SUBSCRIBED
        || code == UNSUBSCRIBE || code == UNSUBSCRIBED || code == EVENT || code == CALL
        || code == RESULT || code == REGISTER || code == REGISTERED || code == UNREGISTER
        || code == UNREGISTERED || code == INVOCATION || code == YIELD
}

/// The value at a position of a list, if the list is that long.
pub open spec fn field(fields: Seq<Arg>, i: int) -> Option<Arg> {
    if 0 <= i < fields.len() {
        Some(fields[i])
    } else {
        None
    }
}

/// The payload that two values at the end of a message make up: none, a
/// list, or a list and then a dictionary.
pub open spec fn payload_of(first: Option<Arg>, second: Option<Arg>) -> Option<Payload> {
    match (first, second) {
        (None, None) => Some(Payload::Empty),
        (Some(Arg::List(args)), None) => Some(Payload::Positional(args)),
        (Some(Arg::List(args)), Some(Arg::Dict(kwargs))) => Some(Payload::Keyed(args, kwargs)),
        _ => None,
    }
}

/// The message that a type code and the values after it make up. Each
/// message fixes the kinds of its fields; one without a payload ends after
/// them, one with a payload ends after the payload.
pub open spec fn message_of(
    code: u64,
    f1: Option<Arg>,
    f2: Option<Arg>,
    f3: Option<Arg>,
    f4: Option<Arg>,
    f5: Option<Arg>,
    f6: Option<Arg>,
) -> Result<Message, DecodeError> {
    if code == HELLO {
        match (f1, f2, f3) {
            (
                Some(Arg::String(realm)),
                Some(Arg::Dict(details)),
                None,
            ) => Ok(Message::Hello { realm, details }),
            _ => Err(DecodeError::Malformed(HELLO)),
        }
    } else if code == WELCOME {
        match (f1, f2, f3) {
            (
                Some(Arg::Integer(session)),
                Some(Arg::Dict(details)),
                None,
            ) => Ok(Message::Welcome { session, details }),
            _ => Err(DecodeError::Malformed(WELCOME)),
        }
    } else if code == ABORT {
        match (f1, f2, f3) {
            (
                Some(Arg::Dict(details)),
                Some(Arg::String(reason)),
                None,
            ) => Ok(Message::Abort { details, reason }),
            _ => Err(DecodeError::Malformed(ABORT)),
        }
    } else if code == GOODBYE {
        match (f1, f2, f3) {
            (
                Some(Arg::Dict(details)),
                Some(Arg::String(reason)),
                None,
            ) => Ok(Message::Goodbye { details, reason }),
            _ => Err(DecodeError::Malformed(GOODBYE)),
        }
    } else if code == ERROR {
        match (f1, f2, f3, f4, payload_of(f5, f6)) {
            (
                Some(Arg::Integer(request_type)),
                Some(Arg::Integer(request)),
                Some(Arg::Dict(details)),
                Some(Arg::String(error)),
                Some(payload),
            ) => Ok(Message::Error { request_type, request, details, error, payload }),
            _ => Err(DecodeError::Malformed(ERROR)),
        }
    } else if code == PUBLISH {
        match (f1, f2, f3, payload_of(f4, f5), f6) {
            (
                Some(Arg::Integer(request)),
                Some(Arg::Dict(options)),
                Some(Arg::String(topic)),
                Some(payload),
                None,
            ) => Ok(Message::Publish { request, options, topic, payload }),
            _ => Err(DecodeError::Malformed(PUBLISH)),
        }
    } else if code == PUBLISHED {
        match (f1, f2, f3) {
            (
                Some(Arg::Integer(request)),
                Some(Arg::Integer(publication)),
                None,
            ) => Ok(Message::Published { request, publication }),
            _ => Err(DecodeError::Malformed(PUBLISHED)),
        }
    } else if code == SUBSCRIBE {
        match (f1, f2, f3, f4) {
            (
                Some(Arg::Integer(request)),
                Some(Arg::Dict(options)),
                Some(Arg::String(topic)),
                None,
            ) => Ok(Message::Subscribe { request, options, topic }),
            _ => Err(DecodeError::Malformed(SUBSCRIBE)),
        }
    } else if code == SUBSCRIBED {
        match (f1, f2, f3) {
            (
                Some(Arg::Integer(request)),
                Some(Arg::Integer(subscription)),
                None,
            ) => Ok(Message::Subscribed { request, subscription }),
            _ => Err(DecodeError::Malformed(SUBSCRIBED)),
        }
    } else if code == UNSUBSCRIBE {
        match (f1, f2, f3) {
            (
                Some(Arg::Integer(request)),
                Some(Arg::Integer(subscription)),
                None,
            ) => Ok(Message::Unsubscribe { request, subscription }),
            _ => Err(DecodeError::Malformed(UNSUBSCRIBE)),
        }
    } else if code == UNSUBSCRIBED {
        match (f1, f2) {
            (Some(Arg::Integer(request)), None) => Ok(Message::Unsubscribed { request }),
            _ => Err(DecodeError::Malformed(UNSUBSCRIBED)),
        }
    } else if code == EVENT {
        match (f1, f2, f3, payload_of(f4, f5), f6) {
            (
                Some(Arg::Integer(subscription)),
                Some(Arg::Integer(publication)),
                Some(Arg::Dict(details)),
                Some(payload),
                None,
            ) => Ok(Message::Event { subscription, publication, details, payload }),
            _ => Err(DecodeError::Malformed(EVENT)),
        }
    } else if code == CALL {
        match (f1, f2, f3, payload_of(f4, f5), f6) {
            (
                Some(Arg::Integer(request)),
                Some(Arg::Dict(options)),
                Some(Arg::String(procedure)),
                Some(payload),
                None,
            ) => Ok(Message::Call { request, options, procedure, payload }),
            _ => Err(DecodeError::Malformed(CALL)),
        }
    } else if code == RESULT {
        match (f1, f2, payload_of(f3, f4), f5) {
            (
                Some(Arg::Integer(request)),
                Some(Arg::Dict(details)),
                Some(payload),
                None,
            ) => Ok(Message::CallResult { request, details, payload }),
            _ => Err(DecodeError::Malformed(RESULT)),
        }
    } else if code == REGISTER {
        match (f1, f2, f3, f4) {
            (
                Some(Arg::Integer(request)),
                Some(Arg::Dict(options)),
                Some(Arg::String(procedure)),
                None,
            ) => Ok(Message::Register { request, options, procedure }),
            _ => Err(DecodeError::Malformed(REGISTER)),
        }
    } else if code == REGISTERED {
        match (f1, f2, f3) {
            (
                Some(Arg::Integer(request)),
                Some(Arg::Integer(registration)),
                None,
            ) => Ok(Message::Registered { request, registration }),
            _ => Err(DecodeError::Malformed(REGISTERED)),
        }
    } else if code == UNREGISTER {
        match (f1, f2, f3) {
            (
                Some(Arg::Integer(request)),
                Some(Arg::Integer(registration)),
                None,
            ) => Ok(Message::Unregister { request, registration }),
            _ => Err(DecodeError::Malformed(UNREGISTER)),
        }
    } else if code == UNREGISTERED {
        match (f1, f2) {
            (Some(Arg::Integer(request)), None) => Ok(Message::Unregistered { request }),
            _ => Err(DecodeError::Malformed(UNREGISTERED)),
        }
    } else if code == INVOCATION {
        match (f1, f2, f3, payload_of(f4, f5), f6) {
            (
                Some(Arg::Integer(request)),
                Some(Arg::Integer(registration)),
                Some(Arg::Dict(details)),
                Some(payload),
                None,
            ) => Ok(Message::Invocation { request, registration, details, payload }),
            _ => Err(DecodeError::Malformed(INVOCATION)),
        }
    } else if code == YIELD {
        match (f1, f2, payload_of(f3, f4), f5) {
            (
                Some(Arg::Integer(request)),
                Some(Arg::Dict(options)),
                Some(payload),
                None,
            ) => Ok(Message::Yield { request, options, payload }),
            _ => Err(DecodeError::Malformed(YIELD)),
        }
    } else {
        Err(DecodeError::UnknownTypeCode(code))
    }
}

/// The most values that any message has, its type code included.
pub const MAX_FIELDS: usize = 7;

/// The message that a list of values stands for: the list begins with a
/// known type code, and the values after it fit that message.
pub open spec fn decoded(fields: Seq<Arg>) -> Result<Message, DecodeError> {
    match field(fields, 0) {
        Some(Arg::Integer(code)) => if !known_code(code) {
            Err(DecodeError::UnknownTypeCode(code))
        } else if fields.len() > MAX_FIELDS {
            Err(DecodeError::Malformed(code))
        } else {
            message_of(
                code,
                field(fields, 1),
                field(fields, 2),
                field(fields, 3),
                field(fields, 4),
                field(fields, 5),
                field(fields, 6),
            )
        },
        _ => Err(DecodeError::NoTypeCode),
    }
}

/// Makes a payload of the two values at the end of a message.
fn read_payload(first: Option<Arg>, second: Option<Arg>) -> (r: Option<Payload>)
    ensures
        r == payload_of(first, second),
{
    match (first, second) {
        (None, None) => Some(Payload::Empty),
        (Some(Arg::List(args)), None) => Some(Payload::Positional(args)),
        (Some(Arg::List(args)), Some(Arg::Dict(kwargs))) => Some(Payload::Keyed(args, kwargs)),
        _ => None,
    }
}

/// Makes a message of a type code and the values after it.
fn read_message(
    code: u64,
    f1: Option<Arg>,
    f2: Option<Arg>,
    f3: Option<Arg>,
    f4: Option<Arg>,
    f5: Option<Arg>,
    f6: Option<Arg>,
) -> (r: Result<Message, DecodeError>)
    ensures
        r == message_of(code, f1, f2, f3, f4, f5, f6),
{
    if code == HELLO {
        match (f1, f2, f3) {
            (
                Some(Arg::String(realm)),
                Some(Arg::Dict(details)),
                None,
            ) => Ok(Message::Hello { realm, details }),
            _ => Err(DecodeError::Malformed(HELLO)),
        }
    } else if code == WELCOME {
        match (f1, f2, f3) {
            (
                Some(Arg::Integer(session)),
                Some(Arg::Dict(details)),
                None,
            ) => Ok(Message::Welcome { session, details }),
            _ => Err(DecodeError::Malformed(WELCOME)),
        }
    } else if code == ABORT {
        match (f1, f2, f3) {
            (
                Some(Arg::Dict(details)),
                Some(Arg::String(reason)),
                None,
            ) => Ok(Message::Abort { details, reason }),
            _ => Err(DecodeError::Malformed(ABORT)),
        }
    } else if code == GOODBYE {
        match (f1, f2, f3) {
            (
                Some(Arg::Dict(details)),
                Some(Arg::String(reason)),
                None,
            ) => Ok(Message::Goodbye { details, reason }),
            _ => Err(DecodeError::Malformed(GOODBYE)),
        }
    } else if code == ERROR {
        match (f1, f2, f3, f4, read_payload(f5, f6)) {
            (
                Some(Arg::Integer(request_type)),
                Some(Arg::Integer(request)),
                Some(Arg::Dict(details)),
                Some(Arg::String(error)),
                Some(payload),
            ) => Ok(Message::Error { request_type, request, details, error, payload }),
            _ => Err(DecodeError::Malformed(ERROR)),
        }
    } else if code == PUBLISH {
        match (f1, f2, f3, read_payload(f4, f5), f6) {
            (
                Some(Arg::Integer(request)),
                Some(Arg::Dict(options)),
                Some(Arg::String(topic)),
                Some(payload),
                None,
            ) => Ok(Message::Publish { request, options, topic, payload }),
            _ => Err(DecodeError::Malformed(PUBLISH)),
        }
    } else if code == PUBLISHED {
        match (f1, f2, f3) {
            (
                Some(Arg::Integer(request)),
                Some(Arg::Integer(publication)),
                None,
            ) => Ok(Message::Published { request, publication }),
            _ => Err(DecodeError::Malformed(PUBLISHED)),
        }
    } else if code == SUBSCRIBE {
        match (f1, f2, f3, f4) {
            (
                Some(Arg::Integer(request)),
                Some(Arg::Dict(options)),
                Some(Arg::String(topic)),
                None,
            ) => Ok(Message::Subscribe { request, options, topic }),
            _ => Err(DecodeError::Malformed(SUBSCRIBE)),
        }
    } else if code == SUBSCRIBED {
        match (f1, f2, f3) {
            (
                Some(Arg::Integer(request)),
                Some(Arg::Integer(subscription)),
                None,
            ) => Ok(Message::Subscribed { request, subscription }),
            _ => Err(DecodeError::Malformed(SUBSCRIBED)),
        }
    } else if code == UNSUBSCRIBE {
        match (f1, f2, f3) {
            (
                Some(Arg::Integer(request)),
                Some(Arg::Integer(subscription)),
                None,
            ) => Ok(Message::Unsubscribe { request, subscription }),
            _ => Err(DecodeError::Malformed(UNSUBSCRIBE)),
        }
    } else if code == UNSUBSCRIBED {
        match (f1, f2) {
            (Some(Arg::Integer(request)), None) => Ok(Message::Unsubscribed { request }),
            _ => Err(DecodeError::Malformed(UNSUBSCRIBED)),
        }
    } else if code == EVENT {
        match (f1, f2, f3, read_payload(f4, f5), f6) {
            (
                Some(Arg::Integer(subscription)),
                Some(Arg::Integer(publication)),
                Some(Arg::Dict(details)),
                Some(payload),
                None,
            ) => Ok(Message::Event { subscription, publication, details, payload }),
            _ => Err(DecodeError::Malformed(EVENT)),
        }
    } else if code == CALL {
        match (f1, f2, f3, read_payload(f4, f5), f6) {
            (
                Some(Arg::Integer(request)),
                Some(Arg::Dict(options)),
                Some(Arg::String(procedure)),
                Some(payload),
                None,
            ) => Ok(Message::Call { request, options, procedure, payload }),
            _ => Err(DecodeError::Malformed(CALL)),
        }
    } else if code == RESULT {
        match (f1, f2, read_payload(f3, f4), f5) {
            (
                Some(Arg::Integer(request)),
                Some(Arg::Dict(details)),
                Some(payload),
                None,
            ) => Ok(Message::CallResult { request, details, payload }),
            _ => Err(DecodeError::Malformed(RESULT)),
        }
    } else if code == REGISTER {
        match (f1, f2, f3, f4) {
            (
                Some(Arg::Integer(request)),
                Some(Arg::Dict(options)),
                Some(Arg::String(procedure)),
                None,
            ) => Ok(Message::Register { request, options, procedure }),
            _ => Err(DecodeError::Malformed(REGISTER)),
        }
    } else if code == REGISTERED {
        match (f1, f2, f3) {
            (
                Some(Arg::Integer(request)),
                Some(Arg::Integer(registration)),
                None,
            ) => Ok(Message::Registered { request, registration }),
            _ => Err(DecodeError::Malformed(REGISTERED)),
        }
    } else if code == UNREGISTER {
        match (f1, f2, f3) {
            (
                Some(Arg::Integer(request)),
                Some(Arg::Integer(registration)),
                None,
            ) => Ok(Message::Unregister { request, registration }),
            _ => Err(DecodeError::Malformed(UNREGISTER)),
        }
    } else if code == UNREGISTERED {
        match (f1, f2) {
            (Some(Arg::Integer(request)), None) => Ok(Message::Unregistered { request }),
            _ => Err(DecodeError::Malformed(UNREGISTERED)),
        }
    } else if code == INVOCATION {
        match (f1, f2, f3, read_payload(f4, f5), f6) {
            (
                Some(Arg::Integer(request)),
                Some(Arg::Integer(registration)),
                Some(Arg::Dict(details)),
                Some(payload),
                None,
            ) => Ok(Message::Invocation { request, registration, details, payload }),
            _ => Err(DecodeError::Malformed(INVOCATION)),
        }
    } else if code == YIELD {
        match (f1, f2, read_payload(f3, f4), f5) {
            (
                Some(Arg::Integer(request)),
                Some(Arg::Dict(options)),
                Some(payload),
                None,
            ) => Ok(Message::Yield { request, options, payload }),
            _ => Err(DecodeError::Malformed(YIELD)),
        }
    } else {
        Err(DecodeError::UnknownTypeCode(code))
    }
}

/// Takes the last value of a list when the list has exactly `len` values.
fn pop_at(fields: &mut Vec<Arg>, len: usize) -> (r: Option<Arg>)
    requires
        old(fields)@.len() <= len,
        len >= 1,
    ensures
        r == field(old(fields)@, len - 1),
        final(fields)@ == if old(fields)@.len() == len {
            old(fields)@.drop_last()
        } else {
            old(fields)@
        },
{
    if fields.len() == len {
        fields.pop()
    } else {
        None
    }
}

/// Reads a message from its positional form.
pub fn decode(fields: Vec<Arg>) -> (r: Result<Message, DecodeError>)
    ensures
        r == decoded(fields@),
{
    let mut fields = fields;
    if fields.len() == 0 {
        return Err(DecodeError::NoTypeCode);
    }
    let code: u64 = match &fields[0] {
        Arg::Integer(code) => *code,
        _ => {
            return Err(DecodeError::NoTypeCode);
        },
    };
    if !is_known(code) {
        return Err(DecodeError::UnknownTypeCode(code));
    }
    if fields.len() > MAX_FIELDS {
        return Err(DecodeError::Malformed(code));
    }
    let f6 = pop_at(&mut fields, 7);
    let f5 = pop_at(&mut fields, 6);
    let f4 = pop_at(&mut fields, 5);
    let f3 = pop_at(&mut fields, 4);
    let f2 = pop_at(&mut fields, 3);
    let f1 = pop_at(&mut fields, 2);
    read_message(code, f1, f2, f3, f4, f5, f6)
}

/// Tells whether an integer is the type code of a message.
pub fn is_known(code: u64) -> (r: bool)
    ensures
        r == known_code(code),
{
    code == HELLO || code == WELCOME || code == ABORT || code == GOODBYE || code == ERROR
        || code == PUBLISH || code == PUBLISHED || code == SUBSCRIBE || code == SUBSCRIBED
        || code == UNSUBSCRIBE || code == UNSUBSCRIBED || code == EVENT || code == CALL
        || code == RESULT || code == REGISTER || code == REGISTERED || code == UNREGISTER
        || code == UNREGISTERED || code == INVOCATION || code == YIELD
}

/// Decoding what encoding gives returns the message that was encoded.
pub proof fn lemma_decode_encode(m: Message)
    ensures
        decoded(encoded(m)) == Ok::<Message, DecodeError>(m),
{
}

/// A list of values that decodes to a message is the encoding of that
/// message.
pub proof fn lemma_encode_decode(fields: Seq<Arg>, m: Message)
    requires
        decoded(fields) == Ok::<Message, DecodeError>(m),
    ensures
        encoded(m) == fields,
{
    assert(encoded(m) =~= fields);
}

} // verus!
