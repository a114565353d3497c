//! RawSocket framing: the four-byte handshake that opens a connection and
//! the four-byte header that goes before every payload.

use vstd::prelude::*;
use vstd::arithmetic::power2::{lemma2_to64, lemma_pow2_strictly_increases, lemma_pow2_unfold, pow2};
use crate::serializer::SerializerId;
use crate::types::{Error, ErrorKind};

verus! {

/// The first byte of every handshake.
pub const MAGIC: u8 = 0x7F;

/// The largest message size that a handshake can announce, and the one
/// announced where nothing else is asked for: 2^24 bytes.
pub const DEFAULT_MAX_MSG_SIZE: usize = 16777216;

/// The longest payload whose length fits the three length bytes of a header.
pub const MAX_PAYLOAD_LENGTH: usize = 16777215;

/// What a frame carries.
#[derive(Debug, Clone, Copy, PartialEq, Eq, Structural)]
pub enum FrameKind {
    Wamp,
    Ping,
    Pong,
}

impl FrameKind {
    /// The type byte of a frame of this kind.
    pub open spec fn spec_code(self) -> u8 {
        match self {
            FrameKind::Wamp => 0,
            FrameKind::Ping => 1,
            FrameKind::Pong => 2,
        }
    }

    /// The kind that a type byte stands for; meant for bytes up to 2.
    pub open spec fn of_code(code: u8) -> FrameKind {
        if code == 0 {
            FrameKind::Wamp
        } else if code == 1 {
            FrameKind::Ping
        } else {
            FrameKind::Pong
        }
    }

    /// The type byte of a frame of this kind.
    pub fn code(&self) -> (c: u8)
        ensures
            c == self.spec_code(),
    {
        match self {
            FrameKind::Wamp => 0,
            FrameKind::Ping => 1,
            FrameKind::Pong => 2,
        }
    }
}

/// The header of one frame: its kind and the length of its payload.
#[derive(Debug, Clone, Copy, PartialEq, Eq, Structural)]
pub struct MessageHeader {
    pub kind: FrameKind,
    pub length: usize,
}

impl MessageHeader {
    pub fn new(kind: FrameKind, length: usize) -> (h: MessageHeader)
        ensures
            h == (MessageHeader { kind, length }),
    {
        MessageHeader { kind, length }
    }

    /// The kind of the frame.
    pub fn kind(&self) -> (k: FrameKind)
        ensures
            k == self.kind,
    {
        self.kind
    }

    /// The length of the payload that follows the header.
    pub fn length(&self) -> (n: usize)
        ensures
            n == self.length,
    {
        self.length
    }
}

/// The four bytes of a header: the type byte, then the length in three
/// bytes, most significant first.
pub open spec fn header_bytes(h: MessageHeader) -> Seq<u8> {
    seq![
        h.kind.spec_code(),
        (h.length / 65536) as u8,
        ((h.length / 256) % 256) as u8,
        (h.length % 256) as u8,
    ]
}

/// The header that four bytes stand for, if they stand for one.
pub open spec fn header_of(bytes: Seq<u8>) -> Option<MessageHeader> {
    if bytes.len() == 4 && bytes[0] <= 2 {
        Some(
            MessageHeader {
                kind: FrameKind::of_code(bytes[0]),
                length: (bytes[1] * 65536 + bytes[2] * 256 + bytes[3]) as usize,
            },
        )
    } else {
        None
    }
}

/// A header read back from its bytes is the header that was written.
pub proof fn lemma_header_round_trip(h: MessageHeader)
    requires
        h.length <= MAX_PAYLOAD_LENGTH,
    ensures
        header_of(header_bytes(h)) == Some(h),
{
    let n = h.length as int;
    assert((n / 65536) * 65536 + ((n / 256) % 256) * 256 + n % 256 == n);
}

/// The bytes written for a header that was read are the bytes it was read
/// from.
pub proof fn lemma_header_bytes_round_trip(bytes: Seq<u8>)
    requires
        header_of(bytes) is Some,
    ensures
        header_bytes(header_of(bytes).unwrap()) == bytes,
{
    let h = header_of(bytes).unwrap();
    let n = bytes[1] * 65536 + bytes[2] * 256 + bytes[3];
    assert(n / 65536 == bytes[1]);
    assert((n / 256) % 256 == bytes[2]);
    assert(n % 256 == bytes[3]);
    assert(header_bytes(h) =~= bytes);
}

/// Writes a header as its four bytes. A length that does not fit three
/// bytes is refused.
pub fn send_message_header(header: &MessageHeader) -> (r: Result<Vec<u8>, Error>)
    ensures
        match r {
            Ok(bytes) => header.length <= MAX_PAYLOAD_LENGTH && bytes@ == header_bytes(*header),
            Err(e) => header.length > MAX_PAYLOAD_LENGTH && e.kind == ErrorKind::InvalidRequest,
        },
{
    if header.length > MAX_PAYLOAD_LENGTH {
        return Err(Error::with_kind(ErrorKind::InvalidRequest, "message too long for one frame"));
    }
    let n: usize = header.length;
    let mut bytes: Vec<u8> = Vec::new();
    bytes.push(header.kind.code());
    bytes.push((n / 65536) as u8);
    bytes.push(((n / 256) % 256) as u8);
    bytes.push((n % 256) as u8);
    assert(bytes@ =~= header_bytes(*header));
    Ok(bytes)
}

/// Reads a header from its four bytes. Anything but four bytes, and a type
/// byte that names no kind of frame, is a framing violation.
pub fn receive_message_header(bytes: &[u8]) -> (r: Result<MessageHeader, Error>)
    ensures
        match r {
            Ok(h) => header_of(bytes@) == Some(h) && h.length <= MAX_PAYLOAD_LENGTH,
            Err(e) => header_of(bytes@) is None && e.kind == ErrorKind::Transport,
        },
{
    if bytes.len() != 4 {
        return Err(Error::with_kind(ErrorKind::Transport, "a frame header has four bytes"));
    }
    let kind = if bytes[0] == 0 {
        FrameKind::Wamp
    } else if bytes[0] == 1 {
        FrameKind::Ping
    } else if bytes[0] == 2 {
        FrameKind::Pong
    } else {
        return Err(Error::with_kind(ErrorKind::Transport, "unknown kind of frame"));
    };
    let high: usize = bytes[1] as usize;
    let middle: usize = bytes[2] as usize;
    let low: usize = bytes[3] as usize;
    Ok(MessageHeader { kind, length: high * 65536 + middle * 256 + low })
}

/// Puts the header of a WAMP frame before its payload.
pub fn encode_frame(payload: Vec<u8>) -> (r: Result<Vec<u8>, Error>)
    ensures
        match r {
            Ok(frame) => payload@.len() <= MAX_PAYLOAD_LENGTH && frame@ == header_bytes(
                MessageHeader { kind: FrameKind::Wamp, length: payload@.len() as usize },
            ) + payload@,
            Err(e) => payload@.len() > MAX_PAYLOAD_LENGTH && e.kind == ErrorKind::InvalidRequest,
        },
{
    let header = MessageHeader::new(FrameKind::Wamp, payload.len());
    let mut frame = match send_message_header(&header) {
        Ok(bytes) => bytes,
        Err(e) => {
            return Err(e);
        },
    };
    let mut rest = payload;
    frame.append(&mut rest);
    Ok(frame)
}

/// A frame splits back into what it was made of: its first four bytes read
/// as the header of a WAMP frame with the payload's length, and the payload
/// follows them.
pub proof fn lemma_frame_splits(payload: Seq<u8>)
    requires
        payload.len() <= MAX_PAYLOAD_LENGTH,
    ensures
        ({
            let header = MessageHeader { kind: FrameKind::Wamp, length: payload.len() as usize };
            let frame = header_bytes(header) + payload;
            &&& header_of(frame.subrange(0, 4)) == Some(header)
            &&& frame.subrange(4, 4 + header.length) == payload
            &&& frame.len() == 4 + payload.len()
        }),
{
    let header = MessageHeader { kind: FrameKind::Wamp, length: payload.len() as usize };
    let frame = header_bytes(header) + payload;
    lemma_header_round_trip(header);
    assert(frame.subrange(0, 4) =~= header_bytes(header));
    assert(frame.subrange(4, 4 + header.length) =~= payload);
}

/// What one side announces when the connection opens: its codec and the
/// largest message it is willing to receive.
#[derive(Debug, Clone, Copy, PartialEq, Eq, Structural)]
pub struct Handshake {
    pub serializer: SerializerId,
    pub max_message_size: usize,
}

impl Handshake {
    pub fn new(serializer: SerializerId, max_message_size: usize) -> (h: Handshake)
        ensures
            h == (Handshake { serializer, max_message_size }),
    {
        Handshake { serializer, max_message_size }
    }
}

/// Whether a size can be announced: it is 2^e for an e from 9 to 24.
pub open spec fn announceable(size: int, e: int) -> bool {
    9 <= e <= 24 && size == pow2(e as nat)
}

/// The four bytes of a handshake that announces the size 2^e: the magic
/// byte, then e - 9 in the high half and the codec's number in the low half
/// of one byte, then two zero bytes.
pub open spec fn handshake_bytes(serializer: SerializerId, e: int) -> Seq<u8> {
    seq![MAGIC, ((e - 9) * 16 + serializer.spec_code()) as u8, 0u8, 0u8]
}

/// The handshake that four bytes stand for, if they stand for one: they
/// begin with the magic byte, name a codec and end in two zero bytes.
pub open spec fn handshake_of(bytes: Seq<u8>) -> Option<Handshake> {
    if bytes.len() == 4 && bytes[0] == MAGIC && bytes[2] == 0 && bytes[3] == 0 && 1 <= bytes[1] % 16
        <= 3 {
        Some(
            Handshake {
                serializer: if bytes[1] % 16 == 1 {
                    SerializerId::Json
                } else if bytes[1] % 16 == 2 {
                    SerializerId::MsgPack
                } else {
                    SerializerId::Cbor
                },
                max_message_size: pow2((bytes[1] / 16 + 9) as nat) as usize,
            },
        )
    } else {
        None
    }
}

/// The exponent of an announceable size, if the size is announceable.
pub fn size_exponent(size: usize) -> (r: Option<u8>)
    ensures
        match r {
            Some(e) => announceable(size as int, e as int),
            None => forall|e: int| !#[trigger] announceable(size as int, e),
        },
{
    let mut e: u8 = 9;
    let mut s: usize = 512;
    proof {
        lemma2_to64();
    }
    while e < 24 && s != size
        invariant
            9 <= e <= 24,
            s == pow2(e as nat),
            s <= 16777216,
            forall|k: int| k < e ==> !#[trigger] announceable(size as int, k),
        decreases 24 - e,
    {
        proof {
            lemma2_to64();
            lemma_pow2_unfold((e + 1) as nat);
            if e + 1 < 24 {
                lemma_pow2_strictly_increases((e + 1) as nat, 24);
            }
        }
        s = s * 2;
        e = e + 1;
    }
    if s == size {
        Some(e)
    } else {
        None
    }
}

/// The size 2^e, for an e from 9 to 24.
pub fn size_of_exponent(e: u8) -> (s: usize)
    requires
        9 <= e <= 24,
    ensures
        s == pow2(e as nat),
        512 <= s <= DEFAULT_MAX_MSG_SIZE,
{
    let mut k: u8 = 9;
    let mut s: usize = 512;
    proof {
        lemma2_to64();
    }
    while k < e
        invariant
            9 <= k <= e <= 24,
            s == pow2(k as nat),
            512 <= s <= 16777216,
        decreases e - k,
    {
        proof {
            lemma2_to64();
            lemma_pow2_unfold((k + 1) as nat);
            if k + 1 < 24 {
                lemma_pow2_strictly_increases((k + 1) as nat, 24);
            }
        }
        s = s * 2;
        k = k + 1;
    }
    s
}

/// Writes a handshake as its four bytes. A size that is no power of two
/// from 2^9 to 2^24 cannot be announced and is refused.
pub fn send_handshake(handshake: &Handshake) -> (r: Result<Vec<u8>, Error>)
    ensures
        match r {
            Ok(bytes) => exists|e: int|
                announceable(handshake.max_message_size as int, e) && bytes@ == handshake_bytes(
                    handshake.serializer,
                    e,
                ),
            Err(err) => err.kind == ErrorKind::InvalidRequest && forall|e: int|
                !#[trigger] announceable(handshake.max_message_size as int, e),
        },
{
    match size_exponent(handshake.max_message_size) {
        Some(e) => {
            let mut bytes: Vec<u8> = Vec::new();
            bytes.push(MAGIC);
            bytes.push((e - 9) * 16 + handshake.serializer.code());
            bytes.push(0);
            bytes.push(0);
            assert(bytes@ =~= handshake_bytes(handshake.serializer, e as int));
            assert(announceable(handshake.max_message_size as int, e as int));
            Ok(bytes)
        },
        None => Err(
            Error::with_kind(
                ErrorKind::InvalidRequest,
                "message size must be a power of two from 512 to 16777216",
            ),
        ),
    }
}

/// Reads the other side's handshake from its four bytes; anything else is
/// a failed handshake.
pub fn receive_handshake(bytes: &[u8]) -> (r: Result<Handshake, Error>)
    ensures
        match r {
            Ok(h) => handshake_of(bytes@) == Some(h),
            Err(e) => handshake_of(bytes@) is None && e.kind == ErrorKind::Transport,
        },
{
    if bytes.len() != 4 {
        return Err(Error::with_kind(ErrorKind::Transport, "a handshake has four bytes"));
    }
    if bytes[0] != MAGIC || bytes[2] != 0 || bytes[3] != 0 {
        return Err(Error::with_kind(ErrorKind::Transport, "not a handshake"));
    }
    let serializer = match SerializerId::from_code(bytes[1] % 16) {
        Some(id) => id,
        None => {
            return Err(Error::with_kind(ErrorKind::Transport, "the router refused the handshake"));
        },
    };
    let size = size_of_exponent(bytes[1] / 16 + 9);
    Ok(Handshake { serializer, max_message_size: size })
}

/// A handshake read back from its bytes is the handshake that was written.
pub proof fn lemma_handshake_round_trip(h: Handshake, e: int)
    requires
        announceable(h.max_message_size as int, e),
    ensures
        handshake_of(handshake_bytes(h.serializer, e)) == Some(h),
{
    let b = (e - 9) * 16 + h.serializer.spec_code();
    assert(0 <= b < 256);
    assert(b % 16 == h.serializer.spec_code());
    assert(b / 16 == e - 9);
}

} // verus!
