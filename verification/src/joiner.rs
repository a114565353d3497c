//! The decisions of the join handshake. The caller sends HELLO, then reads
//! frames and offers each to the handshake state machine; what that machine
//! reports is turned here into the next thing to do.

use vstd::prelude::*;
use crate::types::{Error, ErrorKind, SessionDetails};

verus! {

/// What to do after one frame was offered to the handshake.
#[derive(Debug)]
pub enum JoinStep {
    /// Write these bytes (the answer to a challenge), then read on.
    Send(Vec<u8>),
    /// The session is joined.
    Joined(SessionDetails),
    /// Nothing to send and not joined yet: read on.
    Wait,
    /// The handshake failed; the session is never joined.
    Fail(Error),
}

/// The next step of the handshake, from what the state machine made of the
/// last frame (`Ok` with bytes to send or none, or `Err` with its reason)
/// and from the session details it holds, if it holds them already.
pub fn join_step(received: Result<Option<Vec<u8>>, String>, details: Option<SessionDetails>) -> (r:
    JoinStep)
    ensures
        match received {
            Ok(Some(bytes)) => r == JoinStep::Send(bytes),
            Ok(None) => match details {
                Some(d) => r == JoinStep::Joined(d),
                None => r == JoinStep::Wait,
            },
            Err(reason) => r matches JoinStep::Fail(e) && e.kind == ErrorKind::Join && e.message@
                == "failed to join: "@ + reason@,
        },
{
    match received {
        Ok(Some(bytes)) => JoinStep::Send(bytes),
        Ok(None) => match details {
            Some(d) => JoinStep::Joined(d),
            None => JoinStep::Wait,
        },
        Err(reason) => JoinStep::Fail(
            Error {
                kind: ErrorKind::Join,
                message: "failed to join: ".to_owned().concat(reason.as_str()),
            },
        ),
    }
}

} // verus!
