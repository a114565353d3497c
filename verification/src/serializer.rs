//! The wire codecs by name: which subprotocol string, which RawSocket
//! serializer id and which kind of frame each of them goes with.

use vstd::prelude::*;

verus! {

/// The codecs that a session can be run with.
#[derive(Debug, Clone, Copy, PartialEq, Eq, Structural)]
pub enum SerializerId {
    Json,
    MsgPack,
    Cbor,
}

impl SerializerId {
    /// The number that stands for the codec in the RawSocket handshake.
    pub open spec fn spec_code(self) -> u8 {
        match self {
            SerializerId::Json => 1,
            SerializerId::MsgPack => 2,
            SerializerId::Cbor => 3,
        }
    }

    /// The number that stands for the codec in the RawSocket handshake.
    pub fn code(&self) -> (c: u8)
        ensures
            c == self.spec_code(),
            1 <= c <= 3,
    {
        match self {
            SerializerId::Json => 1,
            SerializerId::MsgPack => 2,
            SerializerId::Cbor => 3,
        }
    }

    /// The codec that a handshake number stands for, if it stands for one.
    pub fn from_code(code: u8) -> (r: Option<SerializerId>)
        ensures
            match r {
                Some(id) => id.spec_code() == code,
                None => code == 0 || code > 3,
            },
    {
        if code == 1 {
            Some(SerializerId::Json)
        } else if code == 2 {
            Some(SerializerId::MsgPack)
        } else if code == 3 {
            Some(SerializerId::Cbor)
        } else {
            None
        }
    }
}

/// What a transport has to know of a codec. The codec is fixed for the
/// lifetime of a session.
pub trait SerializerSpec {
    /// The WebSocket subprotocol to negotiate.
    fn subprotocol(&self) -> String;

    /// The codec's id in the RawSocket handshake.
    fn serializer_id(&self) -> SerializerId;

    /// Whether the codec's frames are binary rather than text.
    fn is_binary(&self) -> bool;
}

/// JSON: text frames, subprotocol `wamp.2.json`.
#[derive(Debug, Clone, Copy, Default)]
pub struct JSONSerializerSpec;

/// CBOR: binary frames, subprotocol `wamp.2.cbor`.
#[derive(Debug, Clone, Copy, Default)]
pub struct CBORSerializerSpec;

/// MessagePack: binary frames, subprotocol `wamp.2.msgpack`.
#[derive(Debug, Clone, Copy, Default)]
pub struct MsgPackSerializerSpec;

impl SerializerSpec for JSONSerializerSpec {
    fn subprotocol(&self) -> (s: String)
        ensures
            s@ == "wamp.2.json"@,
    {
        "wamp.2.json".to_owned()
    }

    fn serializer_id(&self) -> (id: SerializerId)
        ensures
            id == SerializerId::Json,
    {
        SerializerId::Json
    }

    fn is_binary(&self) -> (b: bool)
        ensures
            !b,
    {
        false
    }
}

impl SerializerSpec for CBORSerializerSpec {
    fn subprotocol(&self) -> (s: String)
        ensures
            s@ == "wamp.2.cbor"@,
    {
        "wamp.2.cbor".to_owned()
    }

    fn serializer_id(&self) -> (id: SerializerId)
        ensures
            id == SerializerId::Cbor,
    {
        SerializerId::Cbor
    }

    fn is_binary(&self) -> (b: bool)
        ensures
            b,
    {
        true
    }
}

impl SerializerSpec for MsgPackSerializerSpec {
    fn subprotocol(&self) -> (s: String)
        ensures
            s@ == "wamp.2.msgpack"@,
    {
        "wamp.2.msgpack".to_owned()
    }

    fn serializer_id(&self) -> (id: SerializerId)
        ensures
            id == SerializerId::MsgPack,
    {
        SerializerId::MsgPack
    }

    fn is_binary(&self) -> (b: bool)
        ensures
            b,
    {
        true
    }
}

} // verus!
