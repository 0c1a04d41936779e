//! Wire encodings that can be negotiated with a router.

use vstd::prelude::*;
use crate::text::same_text;

verus! {

/// A wire encoding for messages.
#[derive(Clone, Copy, Debug, PartialEq, Eq, Structural)]
pub enum SerializerType {
    Json,
    MsgPack,
    Cbor,
}

/// Failure to recognise a subprotocol name; carries the name.
#[derive(Debug)]
pub struct UnknownSerializer(pub String);

/// The subprotocol name under which an encoding is negotiated.
pub open spec fn subprotocol(s: SerializerType) -> Seq<char> {
    match s {
        SerializerType::Json => "wamp.2.json"@,
        SerializerType::MsgPack => "wamp.2.msgpack"@,
        SerializerType::Cbor => "wamp.2.cbor"@,
    }
}

/// The encoding negotiated under a subprotocol name, if the name is known.
pub open spec fn by_subprotocol(name: Seq<char>) -> Option<SerializerType> {
    if name == "wamp.2.json"@ {
        Some(SerializerType::Json)
    } else if name == "wamp.2.msgpack"@ {
        Some(SerializerType::MsgPack)
    } else if name == "wamp.2.cbor"@ {
        Some(SerializerType::Cbor)
    } else {
        None
    }
}

/// Whether an encoding travels in binary frames rather than text frames.
pub open spec fn binary_encoding(s: SerializerType) -> bool {
    s != SerializerType::Json
}

impl SerializerType {
    /// The subprotocol name of this encoding.
    pub fn to_str(&self) -> (name: &'static str)
        ensures
            name@ == subprotocol(*self),
    {
        match self {
            SerializerType::Json => "wamp.2.json",
            SerializerType::MsgPack => "wamp.2.msgpack",
            SerializerType::Cbor => "wamp.2.cbor",
        }
    }

    /// Recognises a subprotocol name.
    pub fn from_str(name: &str) -> (r: Result<SerializerType, UnknownSerializer>)
        ensures
            match by_subprotocol(name@) {
                Some(s) => r == Ok::<SerializerType, UnknownSerializer>(s),
                None => r is Err && r->Err_0.0@ == name@,
            },
    {
        if same_text(name, "wamp.2.json") {
            Ok(SerializerType::Json)
        } else if same_text(name, "wamp.2.msgpack") {
            Ok(SerializerType::MsgPack)
        } else if same_text(name, "wamp.2.cbor") {
            Ok(SerializerType::Cbor)
        } else {
            Err(UnknownSerializer(name.to_owned()))
        }
    }

    /// Whether this encoding travels in binary frames.
    pub fn is_binary(&self) -> (b: bool)
        ensures
            b == binary_encoding(*self),
    {
        match self {
            SerializerType::Json => false,
            SerializerType::MsgPack => true,
            SerializerType::Cbor => true,
        }
    }
}

/// Every encoding is recognised by its own subprotocol name.
pub proof fn lemma_subprotocol_recognised(s: SerializerType)
    ensures
        by_subprotocol(subprotocol(s)) == Some(s),
{
    reveal_strlit("wamp.2.json");
    reveal_strlit("wamp.2.msgpack");
    reveal_strlit("wamp.2.cbor");
    assert("wamp.2.json"@.len() == 11);
    assert("wamp.2.msgpack"@.len() == 14);
    assert("wamp.2.cbor"@[7] == 'c');
    assert("wamp.2.json"@[7] == 'j');
}

} // verus!
