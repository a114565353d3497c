//! Client-side session logic for the Web Application Messaging Protocol.
//!
//! The crate holds the parts of a WAMP client that decide: the wire values,
//! the typed messages, the request-id source, the request/reply registry with
//! its dispatcher, the join handshake decisions and the RawSocket framing.
//! Transports, codecs and threads live with the caller, which feeds decoded
//! messages in and carries out the actions that come back.

pub mod value;
pub mod idgen;
pub mod message;
pub mod types;
pub mod session;
pub mod laws;
pub mod serializer;
pub mod peer;
pub mod joiner;
pub mod rawsocket;
pub mod uri;
