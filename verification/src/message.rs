//! The typed messages of the protocol, tagged by their numeric type code.

use vstd::prelude::*;
use crate::value::{Dict, Value};

verus! {

pub const MESSAGE_TYPE_HELLO: u64 = 1;
pub const MESSAGE_TYPE_WELCOME: u64 = 2;
pub const MESSAGE_TYPE_ABORT: u64 = 3;
pub const MESSAGE_TYPE_CHALLENGE: u64 = 4;
pub const MESSAGE_TYPE_AUTHENTICATE: u64 = 5;
pub const MESSAGE_TYPE_GOODBYE: u64 = 6;
pub const MESSAGE_TYPE_ERROR: u64 = 8;
pub const MESSAGE_TYPE_PUBLISH: u64 = 16;
pub const MESSAGE_TYPE_PUBLISHED: u64 = 17;
pub const MESSAGE_TYPE_SUBSCRIBE: u64 = 32;
pub const MESSAGE_TYPE_SUBSCRIBED: u64 = 33;
pub const MESSAGE_TYPE_UNSUBSCRIBE: u64 = 34;
pub const MESSAGE_TYPE_UNSUBSCRIBED: u64 = 35;
pub const MESSAGE_TYPE_EVENT: u64 = 36;
pub const MESSAGE_TYPE_CALL: u64 = 48;
pub const MESSAGE_TYPE_RESULT: u64 = 50;
pub const MESSAGE_TYPE_REGISTER: u64 = 64;
pub const MESSAGE_TYPE_REGISTERED: u64 = 65;
pub const MESSAGE_TYPE_UNREGISTER: u64 = 66;
pub const MESSAGE_TYPE_UNREGISTERED: u64 = 67;
pub const MESSAGE_TYPE_INVOCATION: u64 = 68;
pub const MESSAGE_TYPE_YIELD: u64 = 70;

/// One protocol message. `Other` stands for a message of a type that this
/// client has no use for; it keeps only the type code.
#[derive(Debug, PartialEq)]
pub enum Message {
    Hello { realm: String, details: Dict },
    Welcome { session_id: i64, details: Dict },
    Abort { details: Dict, reason: String },
    Challenge { auth_method: String, extra: Dict },
    Authenticate { signature: String, extra: Dict },
    Goodbye { details: Dict, reason: String },
    Error {
        message_type: u64,
        request_id: i64,
        details: Dict,
        uri: String,
        args: Option<Vec<Value>>,
        kwargs: Option<Dict>,
    },
    Publish {
        request_id: i64,
        options: Dict,
        topic: String,
        args: Option<Vec<Value>>,
        kwargs: Option<Dict>,
    },
    Published { request_id: i64, publication_id: i64 },
    Subscribe { request_id: i64, options: Dict, topic: String },
    Subscribed { request_id: i64, subscription_id: i64 },
    Unsubscribe { request_id: i64, subscription_id: i64 },
    Unsubscribed { request_id: i64 },
    Event {
        subscription_id: i64,
        publication_id: i64,
        details: Dict,
        args: Option<Vec<Value>>,
        kwargs: Option<Dict>,
    },
    Call {
        request_id: i64,
        options: Dict,
        procedure: String,
        args: Option<Vec<Value>>,
        kwargs: Option<Dict>,
    },
    Result { request_id: i64, details: Dict, args: Option<Vec<Value>>, kwargs: Option<Dict> },
    Register { request_id: i64, options: Dict, procedure: String },
    Registered { request_id: i64, registration_id: i64 },
    Unregister { request_id: i64, registration_id: i64 },
    Unregistered { request_id: i64 },
    Invocation {
        request_id: i64,
        registration_id: i64,
        details: Dict,
        args: Option<Vec<Value>>,
        kwargs: Option<Dict>,
    },
    Yield { request_id: i64, options: Dict, args: Option<Vec<Value>>, kwargs: Option<Dict> },
    Other { message_type: u64 },
}

impl Message {
    /// The numeric type code that leads the message on the wire.
    pub open spec fn type_code(self) -> u64 {
        match self {
            Message::Hello { .. } => 1,
            Message::Welcome { .. } => 2,
            Message::Abort { .. } => 3,
            Message::Challenge { .. } => 4,
            Message::Authenticate { .. } => 5,
            Message::Goodbye { .. } => 6,
            Message::Error { .. } => 8,
            Message::Publish { .. } => 16,
            Message::Published { .. } => 17,
            Message::Subscribe { .. } => 32,
            Message::Subscribed { .. } => 33,
            Message::Unsubscribe { .. } => 34,
            Message::Unsubscribed { .. } => 35,
            Message::Event { .. } => 36,
            Message::Call { .. } => 48,
            Message::Result { .. } => 50,
            Message::Register { .. } => 64,
            Message::Registered { .. } => 65,
            Message::Unregister { .. } => 66,
            Message::Unregistered { .. } => 67,
            Message::Invocation { .. } => 68,
            Message::Yield { .. } => 70,
            Message::Other { message_type } => message_type,
        }
    }

    /// The numeric type code that leads the message on the wire.
    pub fn message_type(&self) -> (code: u64)
        ensures
            code == self.type_code(),
    {
        match self {
            Message::Hello { .. } => MESSAGE_TYPE_HELLO,
            Message::Welcome { .. } => MESSAGE_TYPE_WELCOME,
            Message::Abort { .. } => MESSAGE_TYPE_ABORT,
            Message::Challenge { .. } => MESSAGE_TYPE_CHALLENGE,
            Message::Authenticate { .. } => MESSAGE_TYPE_AUTHENTICATE,
            Message::Goodbye { .. } => MESSAGE_TYPE_GOODBYE,
            Message::Error { .. } => MESSAGE_TYPE_ERROR,
            Message::Publish { .. } => MESSAGE_TYPE_PUBLISH,
            Message::Published { .. } => MESSAGE_TYPE_PUBLISHED,
            Message::Subscribe { .. } => MESSAGE_TYPE_SUBSCRIBE,
            Message::Subscribed { .. } => MESSAGE_TYPE_SUBSCRIBED,
            Message::Unsubscribe { .. } => MESSAGE_TYPE_UNSUBSCRIBE,
            Message::Unsubscribed { .. } => MESSAGE_TYPE_UNSUBSCRIBED,
            Message::Event { .. } => MESSAGE_TYPE_EVENT,
            Message::Call { .. } => MESSAGE_TYPE_CALL,
            Message::Result { .. } => MESSAGE_TYPE_RESULT,
            Message::Register { .. } => MESSAGE_TYPE_REGISTER,
            Message::Registered { .. } => MESSAGE_TYPE_REGISTERED,
            Message::Unregister { .. } => MESSAGE_TYPE_UNREGISTER,
            Message::Unregistered { .. } => MESSAGE_TYPE_UNREGISTERED,
            Message::Invocation { .. } => MESSAGE_TYPE_INVOCATION,
            Message::Yield { .. } => MESSAGE_TYPE_YIELD,
            Message::Other { message_type } => *message_type,
        }
    }
}

} // verus!
