//! Client-side core of the Web Application Messaging Protocol.
//!
//! The crate holds what a client decides and computes: the messages and
//! their positional form, the allocation of request identifiers, the tables
//! of requests that await an answer and of installed handlers, the state
//! machine of the session, and the choices of the WebSocket transport.
//! Nothing in it waits or performs I/O. An application reads frames, hands
//! them to [`Client::receive`], and carries out the [`Effect`]s it gets back.

pub mod client;
pub mod common;
pub mod config;
pub mod error;
pub mod ident;
pub mod message;
pub mod options;
pub mod serializer;
pub mod session;
pub mod table;
pub mod text;
pub mod transport;

pub use client::Client;
pub use common::{Arg, WampBool, WampDict, WampId, WampInteger, WampList, WampString, WampUri};
pub use config::ClientConfig;
pub use error::WampError;
pub use message::{DecodeError, Message, Payload};
pub use options::{
    InvokeOption, MatchOption, OptionBuilder, RegistrationOptionItem, RegistrationOptions,
    WampOption,
};
pub use serializer::SerializerType;
pub use session::{ClientState, Effect, Failure, Outcome};
