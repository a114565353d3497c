//! The transport as the session sees it: a framed, duplex channel of
//! byte messages, and the choice of WebSocket frame for a payload.

use vstd::prelude::*;
use vstd::utf8::{decode_utf8, encode_utf8, valid_utf8};
use crate::types::{Error, ErrorKind};

verus! {

pub type TransportType = usize;

pub const TRANSPORT_WEB_SOCKET: TransportType = 1;

pub const TRANSPORT_RAW_SOCKET: TransportType = 2;

/// A connection to the router that carries whole frames: one `read` yields
/// one complete message, never a part of one and never two. `write` may be
/// called from any number of producers, `read` from one consumer.
pub trait Peer {
    /// Which transport this is.
    fn kind(&self) -> TransportType;

    /// Waits for the next frame.
    fn read(&self) -> Result<Vec<u8>, Error>;

    /// Sends one frame.
    fn write(&self, data: Vec<u8>) -> Result<(), Error>;
}

/// One WebSocket data message.
#[derive(Debug, PartialEq, Eq)]
pub enum Frame {
    Binary(Vec<u8>),
    Text(String),
}

/// `String::from_utf8`: the bytes as a string where they are valid UTF-8,
/// and the bytes handed back where they are not.
#[verifier::external_body]
fn utf8_text(data: Vec<u8>) -> (r: Result<String, Vec<u8>>)
    ensures
        match r {
            Ok(text) => valid_utf8(data@) && text@ == decode_utf8(data@),
            Err(bytes) => !valid_utf8(data@) && bytes == data,
        },
{
    String::from_utf8(data).map_err(|e| e.into_bytes())
}

/// The WebSocket message that carries `data`: a binary message for a binary
/// codec; for a text codec a text message, for which the data has to be
/// valid UTF-8.
pub fn outgoing_frame(data: Vec<u8>, binary: bool) -> (r: Result<Frame, Error>)
    ensures
        match r {
            Ok(Frame::Binary(bytes)) => binary && bytes == data,
            Ok(Frame::Text(text)) => !binary && valid_utf8(data@) && text@ == decode_utf8(data@),
            Err(e) => !binary && !valid_utf8(data@) && e.kind == ErrorKind::Transport
                && e.message@ == "Not valid UTF-8"@,
        },
{
    if binary {
        Ok(Frame::Binary(data))
    } else {
        match utf8_text(data) {
            Ok(text) => Ok(Frame::Text(text)),
            Err(_) => Err(Error::with_kind(ErrorKind::Transport, "Not valid UTF-8")),
        }
    }
}

/// The payload that a WebSocket message carries.
pub fn incoming_payload(frame: Frame) -> (data: Vec<u8>)
    ensures
        match frame {
            Frame::Binary(bytes) => data == bytes,
            Frame::Text(text) => data@ == encode_utf8(text@),
        },
{
    match frame {
        Frame::Binary(bytes) => bytes,
        Frame::Text(text) => text.as_str().as_bytes_vec(),
    }
}

} // verus!
