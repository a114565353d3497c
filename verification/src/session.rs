//! The session core: the registry of pending requests, the registry of
//! installed handlers, and the dispatcher that pairs each inbound message
//! with the request or handler it belongs to.
//!
//! The session does no I/O. Each operation is started here, which yields the
//! message to send; each decoded inbound message is handed to
//! `process_incoming_message`, which yields the action to carry out. The reply
//! channel type `T` and the handler types `RH` and `EH` are the caller's.

use vstd::prelude::*;
use std::collections::HashMap;
use crate::idgen::{IdGenerator, MAX_REQUEST_ID};
use crate::message::{
    Message, MESSAGE_TYPE_CALL, MESSAGE_TYPE_INVOCATION, MESSAGE_TYPE_PUBLISH,
    MESSAGE_TYPE_REGISTER, MESSAGE_TYPE_SUBSCRIBE, MESSAGE_TYPE_UNREGISTER,
    MESSAGE_TYPE_UNSUBSCRIBE,
};
use crate::types::{
    CallRequest, CallResponse, Error, ErrorKind, IncomingRequest, PublishRequest, PublishResponse,
    RegisterRequest, RegisterResponse, Reply, SessionDetails, SubscribeRequest, SubscribeResponse,
    WampError, Yield,
};
use crate::value::{Dict, Value};

verus! {

broadcast use vstd::std_specs::hash::group_hash_axioms;

/// What the caller has to do after an inbound message was dispatched.
#[derive(Debug, PartialEq)]
pub enum Action<T> {
    /// Send `reply` on `channel`, then drop the channel.
    Deliver { channel: T, reply: Reply },
    /// Run the handler installed under `registration_id` in a task of its
    /// own and send what `invocation_reply` makes of its result.
    Invoke { request_id: i64, registration_id: i64, invocation: IncomingRequest },
    /// Run the handler installed under `subscription_id` in a task of its own.
    Notify { subscription_id: i64, event: IncomingRequest },
    /// The router said goodbye: signal `exit`, and `goodbye_acked` as well
    /// if `leave_acknowledged`; then stop reading.
    Disconnect { leave_acknowledged: bool },
    /// Nothing to do.
    Ignore,
}

/// The session as a mathematical value.
#[verifier::ext_equal]
pub struct SessionView<T, RH, EH> {
    /// The request id that the next operation will use.
    pub next_id: int,
    pub calls: Map<i64, T>,
    pub registers: Map<i64, (T, RH)>,
    pub unregisters: Map<i64, (T, i64)>,
    pub publishes: Map<i64, T>,
    pub subscribes: Map<i64, (T, EH)>,
    pub unsubscribes: Map<i64, (T, i64)>,
    pub registrations: Map<i64, RH>,
    pub subscriptions: Map<i64, EH>,
    /// Whether GOODBYE was sent from this side.
    pub goodbye_sent: bool,
    /// Whether the router answered a GOODBYE sent from this side.
    pub goodbye_acked: bool,
    /// Whether the session has ended.
    pub exited: bool,
}

/// The error that an ERROR message carries.
pub open spec fn carried_error(
    uri: String,
    args: Option<Vec<Value>>,
    kwargs: Option<Dict>,
) -> WampError {
    WampError { uri, args, kwargs }
}

/// Whether the options of a publication ask for an acknowledgement.
pub open spec fn wants_acknowledgement(options: Map<Seq<char>, Value>) -> bool {
    options.contains_key("acknowledge"@) && options["acknowledge"@] == Value::Bool(true)
}

/// Whether a message is the GOODBYE that starts an orderly leave.
pub open spec fn is_close_realm_goodbye(msg: Message) -> bool {
    match msg {
        Message::Goodbye { details, reason } => {
            details@ == Map::<Seq<char>, Value>::empty() && reason@ == "wamp.close.close_realm"@
        },
        _ => false,
    }
}

/// Whether the options of a publication ask for an acknowledgement.
pub fn acknowledge_requested(options: &Dict) -> (b: bool)
    ensures
        b == wants_acknowledgement(options@),
{
    match options.get("acknowledge") {
        Some(Value::Bool(b)) => *b,
        _ => false,
    }
}

/// Whether `msg` is what goes back to the router for the invocation
/// `request_id` after its handler returned `outcome`: YIELD with the
/// outcome's payload, or, where the outcome names an error, ERROR for an
/// invocation with that error.
pub open spec fn answers_invocation(msg: Message, request_id: i64, outcome: Yield) -> bool {
    match outcome.error {
        Some(error) => match msg {
            Message::Error { message_type, request_id: id, details, uri, args, kwargs } => {
                &&& message_type == 68
                &&& id == request_id
                &&& details@ == Map::<Seq<char>, Value>::empty()
                &&& uri == error.uri
                &&& args == error.args
                &&& kwargs == error.kwargs
            },
            _ => false,
        },
        None => match msg {
            Message::Yield { request_id: id, options, args, kwargs } => {
                &&& id == request_id
                &&& options@ == Map::<Seq<char>, Value>::empty()
                &&& args == outcome.args
                &&& kwargs == outcome.kwargs
            },
            _ => false,
        },
    }
}

/// The message that answers an invocation whose handler returned `outcome`.
pub fn invocation_reply(request_id: i64, outcome: Yield) -> (msg: Message)
    ensures
        answers_invocation(msg, request_id, outcome),
{
    match outcome.error {
        Some(error) => Message::Error {
            message_type: MESSAGE_TYPE_INVOCATION,
            request_id,
            details: Dict::new(),
            uri: error.uri,
            args: error.args,
            kwargs: error.kwargs,
        },
        None => Message::Yield {
            request_id,
            options: Dict::new(),
            args: outcome.args,
            kwargs: outcome.kwargs,
        },
    }
}

/// The message that answers an invocation whose handler did not return:
/// ERROR for an invocation, with `wamp.error.runtime_error` and no payload.
pub fn invocation_failure(request_id: i64) -> (msg: Message)
    ensures
        match msg {
            Message::Error { message_type, request_id: id, details, uri, args, kwargs } => {
                &&& message_type == 68
                &&& id == request_id
                &&& details@ == Map::<Seq<char>, Value>::empty()
                &&& uri@ == "wamp.error.runtime_error"@
                &&& args is None
                &&& kwargs is None
            },
            _ => false,
        },
{
    Message::Error {
        message_type: MESSAGE_TYPE_INVOCATION,
        request_id,
        details: Dict::new(),
        uri: "wamp.error.runtime_error".to_owned(),
        args: None,
        kwargs: None,
    }
}

/// What a call returns once its reply channel has yielded `reply`, or has
/// been closed without one (`None`): the response that was delivered; a
/// transport error where the channel was closed; a protocol error where the
/// reply is of another class.
pub fn call_outcome(reply: Option<Reply>) -> (r: Result<CallResponse, Error>)
    ensures
        match reply {
            Some(Reply::Call(response)) => r == Ok::<CallResponse, Error>(response),
            Some(_) => r matches Err(e) && e.kind == ErrorKind::Protocol,
            None => r matches Err(e) && e.kind == ErrorKind::Transport,
        },
{
    match reply {
        Some(Reply::Call(response)) => Ok(response),
        Some(_) => Err(Error::with_kind(ErrorKind::Protocol, "call failed: unexpected reply")),
        None => Err(Error::with_kind(ErrorKind::Transport, "call failed: transport closed")),
    }
}

/// What a registration returns once its reply channel has yielded `reply`
/// or has been closed without one.
pub fn register_outcome(reply: Option<Reply>) -> (r: Result<RegisterResponse, Error>)
    ensures
        match reply {
            Some(Reply::Register(response)) => r == Ok::<RegisterResponse, Error>(response),
            Some(_) => r matches Err(e) && e.kind == ErrorKind::Protocol,
            None => r matches Err(e) && e.kind == ErrorKind::Transport,
        },
{
    match reply {
        Some(Reply::Register(response)) => Ok(response),
        Some(_) => Err(Error::with_kind(ErrorKind::Protocol, "register failed: unexpected reply")),
        None => Err(Error::with_kind(ErrorKind::Transport, "register failed: transport closed")),
    }
}

/// What a subscription returns once its reply channel has yielded `reply`
/// or has been closed without one.
pub fn subscribe_outcome(reply: Option<Reply>) -> (r: Result<SubscribeResponse, Error>)
    ensures
        match reply {
            Some(Reply::Subscribe(response)) => r == Ok::<SubscribeResponse, Error>(response),
            Some(_) => r matches Err(e) && e.kind == ErrorKind::Protocol,
            None => r matches Err(e) && e.kind == ErrorKind::Transport,
        },
{
    match reply {
        Some(Reply::Subscribe(response)) => Ok(response),
        Some(_) => Err(Error::with_kind(ErrorKind::Protocol, "subscribe failed: unexpected reply")),
        None => Err(Error::with_kind(ErrorKind::Transport, "subscribe failed: transport closed")),
    }
}

/// What an acknowledged publication returns once its reply channel has
/// yielded `reply` or has been closed without one.
pub fn publish_outcome(reply: Option<Reply>) -> (r: Result<Option<PublishResponse>, Error>)
    ensures
        match reply {
            Some(Reply::Publish(response)) => r == Ok::<Option<PublishResponse>, Error>(
                Some(response),
            ),
            Some(_) => r matches Err(e) && e.kind == ErrorKind::Protocol,
            None => r matches Err(e) && e.kind == ErrorKind::Transport,
        },
{
    match reply {
        Some(Reply::Publish(response)) => Ok(Some(response)),
        Some(_) => Err(Error::with_kind(ErrorKind::Protocol, "publish failed: unexpected reply")),
        None => Err(Error::with_kind(ErrorKind::Transport, "publish failed: transport closed")),
    }
}

/// What the removal of a registration returns once its reply channel has
/// yielded `reply` or has been closed without one: the error that the
/// router reported, if it reported one.
pub fn unregister_outcome(reply: Option<Reply>) -> (r: Result<Option<WampError>, Error>)
    ensures
        match reply {
            Some(Reply::Unregister(error)) => r == Ok::<Option<WampError>, Error>(error),
            Some(_) => r matches Err(e) && e.kind == ErrorKind::Protocol,
            None => r matches Err(e) && e.kind == ErrorKind::Transport,
        },
{
    match reply {
        Some(Reply::Unregister(error)) => Ok(error),
        Some(_) => Err(
            Error::with_kind(ErrorKind::Protocol, "unregister failed: unexpected reply"),
        ),
        None => Err(Error::with_kind(ErrorKind::Transport, "unregister failed: transport closed")),
    }
}

/// What the removal of a subscription returns once its reply channel has
/// yielded `reply` or has been closed without one: the error that the
/// router reported, if it reported one.
pub fn unsubscribe_outcome(reply: Option<Reply>) -> (r: Result<Option<WampError>, Error>)
    ensures
        match reply {
            Some(Reply::Unsubscribe(error)) => r == Ok::<Option<WampError>, Error>(error),
            Some(_) => r matches Err(e) && e.kind == ErrorKind::Protocol,
            None => r matches Err(e) && e.kind == ErrorKind::Transport,
        },
{
    match reply {
        Some(Reply::Unsubscribe(error)) => Ok(error),
        Some(_) => Err(
            Error::with_kind(ErrorKind::Protocol, "unsubscribe failed: unexpected reply"),
        ),
        None => Err(
            Error::with_kind(ErrorKind::Transport, "unsubscribe failed: transport closed"),
        ),
    }
}

impl<T, RH, EH> SessionView<T, RH, EH> {
    /// The state of a session that has just been joined.
    pub open spec fn initial() -> Self {
        SessionView {
            next_id: 1,
            calls: Map::empty(),
            registers: Map::empty(),
            unregisters: Map::empty(),
            publishes: Map::empty(),
            subscribes: Map::empty(),
            unsubscribes: Map::empty(),
            registrations: Map::empty(),
            subscriptions: Map::empty(),
            goodbye_sent: false,
            goodbye_acked: false,
            exited: false,
        }
    }

    /// The number of pending maps that hold `id`.
    pub open spec fn pending_classes(self, id: i64) -> nat {
        let a: nat = if self.calls.contains_key(id) { 1 } else { 0 };
        let b: nat = if self.registers.contains_key(id) { 1 } else { 0 };
        let c: nat = if self.unregisters.contains_key(id) { 1 } else { 0 };
        let d: nat = if self.publishes.contains_key(id) { 1 } else { 0 };
        let e: nat = if self.subscribes.contains_key(id) { 1 } else { 0 };
        let f: nat = if self.unsubscribes.contains_key(id) { 1 } else { 0 };
        a + b + c + d + e + f
    }

    /// Whether a request with this id awaits its reply.
    pub open spec fn is_pending(self, id: i64) -> bool {
        self.pending_classes(id) > 0
    }

    /// Whether no request awaits a reply.
    pub open spec fn nothing_pending(self) -> bool {
        &&& self.calls == Map::<i64, T>::empty()
        &&& self.registers == Map::<i64, (T, RH)>::empty()
        &&& self.unregisters == Map::<i64, (T, i64)>::empty()
        &&& self.publishes == Map::<i64, T>::empty()
        &&& self.subscribes == Map::<i64, (T, EH)>::empty()
        &&& self.unsubscribes == Map::<i64, (T, i64)>::empty()
    }

    /// The invariant of the session: request ids are positive and below the
    /// next one to be used, each is pending in at most one class, and an
    /// ended session has nothing pending.
    pub open spec fn wf(self) -> bool {
        &&& 1 <= self.next_id <= MAX_REQUEST_ID + 1
        &&& forall|id: i64| #[trigger] self.is_pending(id) ==> 1 <= id < self.next_id
        &&& forall|id: i64| #[trigger] self.pending_classes(id) <= 1
        &&& self.calls.dom().finite()
        &&& self.registers.dom().finite()
        &&& self.unregisters.dom().finite()
        &&& self.publishes.dom().finite()
        &&& self.subscribes.dom().finite()
        &&& self.unsubscribes.dom().finite()
        &&& self.registrations.dom().finite()
        &&& self.subscriptions.dom().finite()
        &&& self.goodbye_acked ==> self.goodbye_sent && self.exited
        &&& self.exited ==> self.nothing_pending()
    }

    /// Why a new operation is refused, if it is: an ended session refuses
    /// with a transport error, one that has used up its ids with a protocol
    /// error.
    pub open spec fn refusal(self) -> Option<ErrorKind> {
        if self.exited {
            Some(ErrorKind::Transport)
        } else if self.next_id > MAX_REQUEST_ID {
            Some(ErrorKind::Protocol)
        } else {
            None
        }
    }

    /// The message of the error with which a new operation is refused.
    pub open spec fn refusal_message(self) -> Seq<char> {
        if self.exited {
            "session is closed"@
        } else {
            "request ids exhausted"@
        }
    }

    /// The id that the next operation uses.
    pub open spec fn fresh_id(self) -> i64 {
        self.next_id as i64
    }

    /// The state after one request id was used and nothing was recorded.
    pub open spec fn with_id_used(self) -> Self {
        SessionView { next_id: self.next_id + 1, ..self }
    }

    /// The state after a call was started.
    pub open spec fn with_call(self, channel: T) -> Self {
        SessionView {
            next_id: self.next_id + 1,
            calls: self.calls.insert(self.fresh_id(), channel),
            ..self
        }
    }

    /// The state after a registration was started.
    pub open spec fn with_register(self, channel: T, handler: RH) -> Self {
        SessionView {
            next_id: self.next_id + 1,
            registers: self.registers.insert(self.fresh_id(), (channel, handler)),
            ..self
        }
    }

    /// The state after the removal of a registration was started.
    pub open spec fn with_unregister(self, channel: T, registration_id: i64) -> Self {
        SessionView {
            next_id: self.next_id + 1,
            unregisters: self.unregisters.insert(self.fresh_id(), (channel, registration_id)),
            ..self
        }
    }

    /// The state after an acknowledged publication was started.
    pub open spec fn with_publish(self, channel: T) -> Self {
        SessionView {
            next_id: self.next_id + 1,
            publishes: self.publishes.insert(self.fresh_id(), channel),
            ..self
        }
    }

    /// The state after a subscription was started.
    pub open spec fn with_subscribe(self, channel: T, handler: EH) -> Self {
        SessionView {
            next_id: self.next_id + 1,
            subscribes: self.subscribes.insert(self.fresh_id(), (channel, handler)),
            ..self
        }
    }

    /// The state after the removal of a subscription was started.
    pub open spec fn with_unsubscribe(self, channel: T, subscription_id: i64) -> Self {
        SessionView {
            next_id: self.next_id + 1,
            unsubscribes: self.unsubscribes.insert(self.fresh_id(), (channel, subscription_id)),
            ..self
        }
    }

    /// The state with the request `id` taken out of every pending map.
    pub open spec fn without(self, id: i64) -> Self {
        SessionView {
            calls: self.calls.remove(id),
            registers: self.registers.remove(id),
            unregisters: self.unregisters.remove(id),
            publishes: self.publishes.remove(id),
            subscribes: self.subscribes.remove(id),
            unsubscribes: self.unsubscribes.remove(id),
            ..self
        }
    }

    /// The reply channel that waits under the request `id`.
    pub open spec fn channel_of(self, id: i64) -> Option<T> {
        if self.calls.contains_key(id) {
            Some(self.calls[id])
        } else if self.registers.contains_key(id) {
            Some(self.registers[id].0)
        } else if self.unregisters.contains_key(id) {
            Some(self.unregisters[id].0)
        } else if self.publishes.contains_key(id) {
            Some(self.publishes[id])
        } else if self.subscribes.contains_key(id) {
            Some(self.subscribes[id].0)
        } else if self.unsubscribes.contains_key(id) {
            Some(self.unsubscribes[id].0)
        } else {
            None
        }
    }

    /// The state after the session ended: nothing is pending any more.
    pub open spec fn ended(self, acknowledged: bool) -> Self {
        SessionView {
            calls: Map::empty(),
            registers: Map::empty(),
            unregisters: Map::empty(),
            publishes: Map::empty(),
            subscribes: Map::empty(),
            unsubscribes: Map::empty(),
            goodbye_acked: acknowledged,
            exited: true,
            ..self
        }
    }

    /// What an ERROR message does, by the type of the request it answers.
    pub open spec fn receive_error(self, message_type: u64, request_id: i64, error: WampError) -> (
        Self,
        Action<T>,
    ) {
        if message_type == 48 && self.calls.contains_key(request_id) {
            (
                SessionView { calls: self.calls.remove(request_id), ..self },
                Action::Deliver {
                    channel: self.calls[request_id],
                    reply: Reply::Call(CallResponse { args: None, kwargs: None, error: Some(error) }),
                },
            )
        } else if message_type == 64 && self.registers.contains_key(request_id) {
            (
                SessionView { registers: self.registers.remove(request_id), ..self },
                Action::Deliver {
                    channel: self.registers[request_id].0,
                    reply: Reply::Register(
                        RegisterResponse { registration_id: 0, error: Some(error) },
                    ),
                },
            )
        } else if message_type == 66 && self.unregisters.contains_key(request_id) {
            (
                SessionView { unregisters: self.unregisters.remove(request_id), ..self },
                Action::Deliver {
                    channel: self.unregisters[request_id].0,
                    reply: Reply::Unregister(Some(error)),
                },
            )
        } else if message_type == 32 && self.subscribes.contains_key(request_id) {
            (
                SessionView { subscribes: self.subscribes.remove(request_id), ..self },
                Action::Deliver {
                    channel: self.subscribes[request_id].0,
                    reply: Reply::Subscribe(
                        SubscribeResponse { subscription_id: 0, error: Some(error) },
                    ),
                },
            )
        } else if message_type == 34 && self.unsubscribes.contains_key(request_id) {
            (
                SessionView { unsubscribes: self.unsubscribes.remove(request_id), ..self },
                Action::Deliver {
                    channel: self.unsubscribes[request_id].0,
                    reply: Reply::Unsubscribe(Some(error)),
                },
            )
        } else if message_type == 16 && self.publishes.contains_key(request_id) {
            (
                SessionView { publishes: self.publishes.remove(request_id), ..self },
                Action::Deliver {
                    channel: self.publishes[request_id],
                    reply: Reply::Publish(PublishResponse { error: Some(error) }),
                },
            )
        } else {
            (self, Action::Ignore)
        }
    }

    /// What one inbound message does to the session, and the action that
    /// it asks of the caller.
    pub open spec fn receive(self, msg: Message) -> (Self, Action<T>) {
        if self.exited {
            (self, Action::Ignore)
        } else {
            match msg {
                Message::Registered { request_id, registration_id } => {
                    if self.registers.contains_key(request_id) {
                        (
                            SessionView {
                                registers: self.registers.remove(request_id),
                                registrations: self.registrations.insert(
                                    registration_id,
                                    self.registers[request_id].1,
                                ),
                                ..self
                            },
                            Action::Deliver {
                                channel: self.registers[request_id].0,
                                reply: Reply::Register(
                                    RegisterResponse { registration_id, error: None },
                                ),
                            },
                        )
                    } else {
                        (self, Action::Ignore)
                    }
                },
                Message::Unregistered { request_id } => {
                    if self.unregisters.contains_key(request_id) {
                        (
                            SessionView {
                                unregisters: self.unregisters.remove(request_id),
                                registrations: self.registrations.remove(
                                    self.unregisters[request_id].1,
                                ),
                                ..self
                            },
                            Action::Deliver {
                                channel: self.unregisters[request_id].0,
                                reply: Reply::Unregister(None),
                            },
                        )
                    } else {
                        (self, Action::Ignore)
                    }
                },
                Message::Subscribed { request_id, subscription_id } => {
                    if self.subscribes.contains_key(request_id) {
                        (
                            SessionView {
                                subscribes: self.subscribes.remove(request_id),
                                subscriptions: self.subscriptions.insert(
                                    subscription_id,
                                    self.subscribes[request_id].1,
                                ),
                                ..self
                            },
                            Action::Deliver {
                                channel: self.subscribes[request_id].0,
                                reply: Reply::Subscribe(
                                    SubscribeResponse { subscription_id, error: None },
                                ),
                            },
                        )
                    } else {
                        (self, Action::Ignore)
                    }
                },
                Message::Unsubscribed { request_id } => {
                    if self.unsubscribes.contains_key(request_id) {
                        (
                            SessionView {
                                unsubscribes: self.unsubscribes.remove(request_id),
                                subscriptions: self.subscriptions.remove(
                                    self.unsubscribes[request_id].1,
                                ),
                                ..self
                            },
                            Action::Deliver {
                                channel: self.unsubscribes[request_id].0,
                                reply: Reply::Unsubscribe(None),
                            },
                        )
                    } else {
                        (self, Action::Ignore)
                    }
                },
                Message::Result { request_id, details, args, kwargs } => {
                    if self.calls.contains_key(request_id) {
                        (
                            SessionView { calls: self.calls.remove(request_id), ..self },
                            Action::Deliver {
                                channel: self.calls[request_id],
                                reply: Reply::Call(CallResponse { args, kwargs, error: None }),
                            },
                        )
                    } else {
                        (self, Action::Ignore)
                    }
                },
                Message::Published { request_id, publication_id } => {
                    if self.publishes.contains_key(request_id) {
                        (
                            SessionView { publishes: self.publishes.remove(request_id), ..self },
                            Action::Deliver {
                                channel: self.publishes[request_id],
                                reply: Reply::Publish(PublishResponse { error: None }),
                            },
                        )
                    } else {
                        (self, Action::Ignore)
                    }
                },
                Message::Invocation { request_id, registration_id, details, args, kwargs } => {
                    if self.registrations.contains_key(registration_id) {
                        (
                            self,
                            Action::Invoke {
                                request_id,
                                registration_id,
                                invocation: IncomingRequest { args, kwargs, details: Some(details) },
                            },
                        )
                    } else {
                        (self, Action::Ignore)
                    }
                },
                Message::Event { subscription_id, publication_id, details, args, kwargs } => {
                    if self.subscriptions.contains_key(subscription_id) {
                        (
                            self,
                            Action::Notify {
                                subscription_id,
                                event: IncomingRequest { args, kwargs, details: Some(details) },
                            },
                        )
                    } else {
                        (self, Action::Ignore)
                    }
                },
                Message::Error { message_type, request_id, details, uri, args, kwargs } => {
                    self.receive_error(message_type, request_id, carried_error(uri, args, kwargs))
                },
                Message::Goodbye { .. } => (
                    self.ended(self.goodbye_sent),
                    Action::Disconnect { leave_acknowledged: self.goodbye_sent },
                ),
                _ => (self, Action::Ignore),
            }
        }
    }
}

/// The session: its pending requests, its installed handlers, its source of
/// request ids and its lifecycle flags.
pub struct Session<T, RH, EH> {
    details: SessionDetails,
    idgen: IdGenerator,
    calls: HashMap<i64, T>,
    registers: HashMap<i64, (T, RH)>,
    unregisters: HashMap<i64, (T, i64)>,
    publishes: HashMap<i64, T>,
    subscribes: HashMap<i64, (T, EH)>,
    unsubscribes: HashMap<i64, (T, i64)>,
    registrations: HashMap<i64, RH>,
    subscriptions: HashMap<i64, EH>,
    goodbye_sent: bool,
    goodbye_acked: bool,
    exited: bool,
}

impl<T, RH, EH> View for Session<T, RH, EH> {
    type V = SessionView<T, RH, EH>;

    closed spec fn view(&self) -> SessionView<T, RH, EH> {
        SessionView {
            next_id: self.idgen.peek(),
            calls: self.calls@,
            registers: self.registers@,
            unregisters: self.unregisters@,
            publishes: self.publishes@,
            subscribes: self.subscribes@,
            unsubscribes: self.unsubscribes@,
            registrations: self.registrations@,
            subscriptions: self.subscriptions@,
            goodbye_sent: self.goodbye_sent,
            goodbye_acked: self.goodbye_acked,
            exited: self.exited,
        }
    }
}

impl<T, RH, EH> Session<T, RH, EH> {
    /// The invariant of the session, which every operation keeps.
    pub open spec fn wf(&self) -> bool {
        self@.wf()
    }

    /// The details that the session was joined with.
    pub closed spec fn spec_details(&self) -> SessionDetails {
        self.details
    }

    /// A session that has just been joined: nothing is pending, no handler
    /// is installed, and the first request id is 1.
    pub fn new(details: SessionDetails) -> (s: Self)
        ensures
            s.wf(),
            s@ == SessionView::<T, RH, EH>::initial(),
            s.spec_details() == details,
    {
        let s = Session {
            details,
            idgen: IdGenerator::new(),
            calls: HashMap::new(),
            registers: HashMap::new(),
            unregisters: HashMap::new(),
            publishes: HashMap::new(),
            subscribes: HashMap::new(),
            unsubscribes: HashMap::new(),
            registrations: HashMap::new(),
            subscriptions: HashMap::new(),
            goodbye_sent: false,
            goodbye_acked: false,
            exited: false,
        };
        assert(s@.wf()) by {
            assert forall|id: i64| #[trigger] s@.pending_classes(id) == 0 by {}
        }
        s
    }

    /// A session that has just been joined and takes its request ids from
    /// the given generator.
    pub fn with_ids(details: SessionDetails, idgen: IdGenerator) -> (s: Self)
        ensures
            s.wf(),
            s@ == (SessionView { next_id: idgen.peek(), ..SessionView::<T, RH, EH>::initial() }),
            s.spec_details() == details,
    {
        let _ = idgen.peek_next();
        let s = Session {
            details,
            idgen,
            calls: HashMap::new(),
            registers: HashMap::new(),
            unregisters: HashMap::new(),
            publishes: HashMap::new(),
            subscribes: HashMap::new(),
            unsubscribes: HashMap::new(),
            registrations: HashMap::new(),
            subscriptions: HashMap::new(),
            goodbye_sent: false,
            goodbye_acked: false,
            exited: false,
        };
        assert(s@.wf()) by {
            assert forall|id: i64| #[trigger] s@.pending_classes(id) == 0 by {}
        }
        s
    }

    /// The details that the session was joined with.
    pub fn details(&self) -> (d: &SessionDetails)
        ensures
            *d == self.spec_details(),
    {
        &self.details
    }

    /// Takes the next request id, unless the session refuses new operations.
    fn allocate(&mut self) -> (r: Result<i64, Error>)
        requires
            old(self).wf(),
        ensures
            match r {
                Ok(id) => {
                    &&& old(self)@.refusal() is None
                    &&& id == old(self)@.fresh_id()
                    &&& 1 <= id <= MAX_REQUEST_ID
                    &&& final(self)@ == old(self)@.with_id_used()
                    &&& final(self).spec_details() == old(self).spec_details()
                },
                Err(e) => {
                    &&& old(self)@.refusal() == Some(e.kind)
                    &&& e.message@ == old(self)@.refusal_message()
                    &&& final(self)@ == old(self)@
                    &&& final(self).spec_details() == old(self).spec_details()
                },
            },
    {
        if self.exited {
            return Err(Error::with_kind(ErrorKind::Transport, "session is closed"));
        }
        match self.idgen.next_id() {
            Some(id) => Ok(id),
            None => Err(Error::with_kind(ErrorKind::Protocol, "request ids exhausted")),
        }
    }

    /// Starts a call: takes a fresh request id, records `channel` as waiting
    /// for the reply, and returns the id with the CALL message to send.
    pub fn begin_call(&mut self, request: CallRequest, channel: T) -> (r: Result<
        (i64, Message),
        Error,
    >)
        requires
            old(self).wf(),
        ensures
            final(self).wf(),
            final(self).spec_details() == old(self).spec_details(),
            match r {
                Ok((id, msg)) => {
                    &&& old(self)@.refusal() is None
                    &&& id == old(self)@.fresh_id()
                    &&& final(self)@ == old(self)@.with_call(channel)
                    &&& msg == (Message::Call {
                        request_id: id,
                        options: request.options,
                        procedure: request.procedure,
                        args: Some(request.args),
                        kwargs: Some(request.kwargs),
                    })
                },
                Err(e) => {
                    &&& old(self)@.refusal() == Some(e.kind)
                    &&& e.message@ == old(self)@.refusal_message()
                    &&& final(self)@ == old(self)@
                },
            },
    {
        let id = match self.allocate() {
            Ok(id) => id,
            Err(e) => {
                return Err(e);
            },
        };
        self.calls.insert(id, channel);
        proof {
            lemma_started_keeps_wf(old(self)@, self@);
        }
        Ok(
            (
                id,
                Message::Call {
                    request_id: id,
                    options: request.options,
                    procedure: request.procedure,
                    args: Some(request.args),
                    kwargs: Some(request.kwargs),
                },
            ),
        )
    }

    /// Starts a registration: takes a fresh request id, records `channel`
    /// and the request's handler as waiting for the reply, and returns the id
    /// with the REGISTER message to send. The handler is installed when
    /// REGISTERED arrives.
    pub fn begin_register(&mut self, request: RegisterRequest<RH>, channel: T) -> (r: Result<
        (i64, Message),
        Error,
    >)
        requires
            old(self).wf(),
        ensures
            final(self).wf(),
            final(self).spec_details() == old(self).spec_details(),
            match r {
                Ok((id, msg)) => {
                    &&& old(self)@.refusal() is None
                    &&& id == old(self)@.fresh_id()
                    &&& final(self)@ == old(self)@.with_register(channel, request.callback)
                    &&& msg == (Message::Register {
                        request_id: id,
                        options: request.options,
                        procedure: request.procedure,
                    })
                },
                Err(e) => {
                    &&& old(self)@.refusal() == Some(e.kind)
                    &&& e.message@ == old(self)@.refusal_message()
                    &&& final(self)@ == old(self)@
                },
            },
    {
        let id = match self.allocate() {
            Ok(id) => id,
            Err(e) => {
                return Err(e);
            },
        };
        self.registers.insert(id, (channel, request.callback));
        proof {
            lemma_started_keeps_wf(old(self)@, self@);
        }
        Ok(
            (
                id,
                Message::Register {
                    request_id: id,
                    options: request.options,
                    procedure: request.procedure,
                },
            ),
        )
    }

    /// Starts the removal of a registration: takes a fresh request id,
    /// records `channel` as waiting, and returns the id with the UNREGISTER
    /// message to send. The handler is removed when UNREGISTERED arrives.
    pub fn begin_unregister(&mut self, registration_id: i64, channel: T) -> (r: Result<
        (i64, Message),
        Error,
    >)
        requires
            old(self).wf(),
        ensures
            final(self).wf(),
            final(self).spec_details() == old(self).spec_details(),
            match r {
                Ok((id, msg)) => {
                    &&& old(self)@.refusal() is None
                    &&& id == old(self)@.fresh_id()
                    &&& final(self)@ == old(self)@.with_unregister(channel, registration_id)
                    &&& msg == (Message::Unregister { request_id: id, registration_id })
                },
                Err(e) => {
                    &&& old(self)@.refusal() == Some(e.kind)
                    &&& e.message@ == old(self)@.refusal_message()
                    &&& final(self)@ == old(self)@
                },
            },
    {
        let id = match self.allocate() {
            Ok(id) => id,
            Err(e) => {
                return Err(e);
            },
        };
        self.unregisters.insert(id, (channel, registration_id));
        proof {
            lemma_started_keeps_wf(old(self)@, self@);
        }
        Ok((id, Message::Unregister { request_id: id, registration_id }))
    }

    /// Starts a subscription: takes a fresh request id, records `channel`
    /// and the request's handler as waiting for the reply, and returns the id
    /// with the SUBSCRIBE message to send. The handler is installed when
    /// SUBSCRIBED arrives.
    pub fn begin_subscribe(&mut self, request: SubscribeRequest<EH>, channel: T) -> (r: Result<
        (i64, Message),
        Error,
    >)
        requires
            old(self).wf(),
        ensures
            final(self).wf(),
            final(self).spec_details() == old(self).spec_details(),
            match r {
                Ok((id, msg)) => {
                    &&& old(self)@.refusal() is None
                    &&& id == old(self)@.fresh_id()
                    &&& final(self)@ == old(self)@.with_subscribe(channel, request.callback)
                    &&& msg == (Message::Subscribe {
                        request_id: id,
                        options: request.options,
                        topic: request.topic,
                    })
                },
                Err(e) => {
                    &&& old(self)@.refusal() == Some(e.kind)
                    &&& e.message@ == old(self)@.refusal_message()
                    &&& final(self)@ == old(self)@
                },
            },
    {
        let id = match self.allocate() {
            Ok(id) => id,
            Err(e) => {
                return Err(e);
            },
        };
        self.subscribes.insert(id, (channel, request.callback));
        proof {
            lemma_started_keeps_wf(old(self)@, self@);
        }
        Ok(
            (
                id,
                Message::Subscribe { request_id: id, options: request.options, topic: request.topic },
            ),
        )
    }

    /// Starts the removal of a subscription: takes a fresh request id,
    /// records `channel` as waiting, and returns the id with the UNSUBSCRIBE
    /// message to send. The handler is removed when UNSUBSCRIBED arrives.
    pub fn begin_unsubscribe(&mut self, subscription_id: i64, channel: T) -> (r: Result<
        (i64, Message),
        Error,
    >)
        requires
            old(self).wf(),
        ensures
            final(self).wf(),
            final(self).spec_details() == old(self).spec_details(),
            match r {
                Ok((id, msg)) => {
                    &&& old(self)@.refusal() is None
                    &&& id == old(self)@.fresh_id()
                    &&& final(self)@ == old(self)@.with_unsubscribe(channel, subscription_id)
                    &&& msg == (Message::Unsubscribe { request_id: id, subscription_id })
                },
                Err(e) => {
                    &&& old(self)@.refusal() == Some(e.kind)
                    &&& e.message@ == old(self)@.refusal_message()
                    &&& final(self)@ == old(self)@
                },
            },
    {
        let id = match self.allocate() {
            Ok(id) => id,
            Err(e) => {
                return Err(e);
            },
        };
        self.unsubscribes.insert(id, (channel, subscription_id));
        proof {
            lemma_started_keeps_wf(old(self)@, self@);
        }
        Ok((id, Message::Unsubscribe { request_id: id, subscription_id }))
    }

    /// Starts a publication: takes a fresh request id and returns it with the
    /// PUBLISH message to send. Where the options ask for an acknowledgement,
    /// `channel` is recorded as waiting for it and `None` comes back in the
    /// third place; otherwise nothing is recorded and the channel is handed
    /// back there, unused: the publication is done once the message is
    /// written.
    pub fn begin_publish(&mut self, request: PublishRequest, channel: T) -> (r: Result<
        (i64, Message, Option<T>),
        Error,
    >)
        requires
            old(self).wf(),
        ensures
            final(self).wf(),
            final(self).spec_details() == old(self).spec_details(),
            match r {
                Ok((id, msg, unused)) => {
                    &&& old(self)@.refusal() is None
                    &&& id == old(self)@.fresh_id()
                    &&& msg == (Message::Publish {
                        request_id: id,
                        options: request.options,
                        topic: request.topic,
                        args: Some(request.args),
                        kwargs: Some(request.kwargs),
                    })
                    &&& wants_acknowledgement(request.options@) ==> unused is None && final(self)@
                        == old(self)@.with_publish(channel)
                    &&& !wants_acknowledgement(request.options@) ==> unused == Some(channel)
                        && final(self)@ == old(self)@.with_id_used()
                },
                Err(e) => {
                    &&& old(self)@.refusal() == Some(e.kind)
                    &&& e.message@ == old(self)@.refusal_message()
                    &&& final(self)@ == old(self)@
                },
            },
    {
        let id = match self.allocate() {
            Ok(id) => id,
            Err(e) => {
                return Err(e);
            },
        };
        let unused = if acknowledge_requested(&request.options) {
            self.publishes.insert(id, channel);
            None
        } else {
            Some(channel)
        };
        proof {
            lemma_started_keeps_wf(old(self)@, self@);
        }
        Ok(
            (
                id,
                Message::Publish {
                    request_id: id,
                    options: request.options,
                    topic: request.topic,
                    args: Some(request.args),
                    kwargs: Some(request.kwargs),
                },
                unused,
            ),
        )
    }

    /// Starts an orderly leave: notes that GOODBYE goes out from this side
    /// and returns the GOODBYE message to send. The leave is complete when the
    /// router's GOODBYE is dispatched.
    pub fn begin_leave(&mut self) -> (r: Result<Message, Error>)
        requires
            old(self).wf(),
        ensures
            final(self).wf(),
            final(self).spec_details() == old(self).spec_details(),
            match r {
                Ok(msg) => {
                    &&& !old(self)@.exited
                    &&& final(self)@ == (SessionView { goodbye_sent: true, ..old(self)@ })
                    &&& is_close_realm_goodbye(msg)
                },
                Err(e) => {
                    &&& old(self)@.exited
                    &&& e.kind == ErrorKind::Transport
                    &&& e.message@ == "session is closed"@
                    &&& final(self)@ == old(self)@
                },
            },
    {
        if self.exited {
            return Err(Error::with_kind(ErrorKind::Transport, "session is closed"));
        }
        self.goodbye_sent = true;
        proof {
            let before = old(self)@;
            let after = self@;
            assert forall|id: i64| #[trigger]
                after.pending_classes(id) == before.pending_classes(id) by {}
            assert forall|id: i64| #[trigger] after.is_pending(id) implies 1 <= id
                < after.next_id by {
                assert(before.is_pending(id));
            }
            assert forall|id: i64| #[trigger] after.pending_classes(id) <= 1 by {
                assert(before.pending_classes(id) <= 1);
            }
        }
        Ok(Message::Goodbye { details: Dict::new(), reason: "wamp.close.close_realm".to_owned() })
    }

    /// Ends the session after the transport failed or a frame could not be
    /// decoded: every pending reply channel is dropped, and no further
    /// operation is accepted.
    pub fn close(&mut self)
        requires
            old(self).wf(),
        ensures
            final(self).wf(),
            final(self).spec_details() == old(self).spec_details(),
            final(self)@ == old(self)@.ended(old(self)@.goodbye_acked),
    {
        let acknowledged = self.goodbye_acked;
        self.end(acknowledged);
    }

    /// Empties the pending maps and marks the session as ended.
    fn end(&mut self, acknowledged: bool)
        requires
            old(self).wf(),
            acknowledged ==> old(self)@.goodbye_sent,
        ensures
            final(self).wf(),
            final(self).spec_details() == old(self).spec_details(),
            final(self)@ == old(self)@.ended(acknowledged),
    {
        self.calls.clear();
        self.registers.clear();
        self.unregisters.clear();
        self.publishes.clear();
        self.subscribes.clear();
        self.unsubscribes.clear();
        self.goodbye_acked = acknowledged;
        self.exited = true;
        proof {
            lemma_ended_is_wf(old(self)@, acknowledged);
        }
    }

    /// Gives up the request `request_id`: its entry leaves the pending maps
    /// and its reply channel is returned. A reply that arrives later is
    /// ignored. For use when the message could not be written, or when the
    /// caller no longer waits.
    pub fn cancel(&mut self, request_id: i64) -> (r: Option<T>)
        requires
            old(self).wf(),
        ensures
            final(self).wf(),
            final(self).spec_details() == old(self).spec_details(),
            final(self)@ == old(self)@.without(request_id),
            r == old(self)@.channel_of(request_id),
            !final(self)@.is_pending(request_id),
    {
        proof {
            lemma_without_is_wf(old(self)@, request_id);
            assert(old(self)@.pending_classes(request_id) <= 1);
        }
        let mut found: Option<T> = None;
        if let Some(channel) = self.calls.remove(&request_id) {
            found = Some(channel);
        } else if let Some((channel, _)) = self.registers.remove(&request_id) {
            found = Some(channel);
        } else if let Some((channel, _)) = self.unregisters.remove(&request_id) {
            found = Some(channel);
        } else if let Some(channel) = self.publishes.remove(&request_id) {
            found = Some(channel);
        } else if let Some((channel, _)) = self.subscribes.remove(&request_id) {
            found = Some(channel);
        } else if let Some((channel, _)) = self.unsubscribes.remove(&request_id) {
            found = Some(channel);
        }
        assert(self@ =~= old(self)@.without(request_id));
        found
    }

    /// Gives up the request `request_id` after its message could not be
    /// encoded or written: the pending entry is removed, its channel
    /// dropped, and the transport error to return to the caller is made
    /// from the reason.
    pub fn write_failed(&mut self, request_id: i64, reason: &str) -> (e: Error)
        requires
            old(self).wf(),
        ensures
            final(self).wf(),
            final(self).spec_details() == old(self).spec_details(),
            final(self)@ == old(self)@.without(request_id),
            !final(self)@.is_pending(request_id),
            e.kind == ErrorKind::Transport,
            e.message@ == "failed to send message: "@ + reason@,
    {
        let _ = self.cancel(request_id);
        Error {
            kind: ErrorKind::Transport,
            message: "failed to send message: ".to_owned().concat(reason),
        }
    }

    /// Dispatches one decoded inbound message: a reply is paired with the
    /// pending request of its id and class, whose entry leaves the registry
    /// together with the reply; an invocation or event is paired with the
    /// handler installed under its id; GOODBYE ends the session. A reply
    /// that nothing waits for, a request for a handler that is not
    /// installed, and any other message change nothing.
    pub fn process_incoming_message(&mut self, msg: Message) -> (action: Action<T>)
        requires
            old(self).wf(),
        ensures
            final(self).wf(),
            final(self).spec_details() == old(self).spec_details(),
            (final(self)@, action) == old(self)@.receive(msg),
    {
        proof {
            lemma_receive_keeps_wf(old(self)@, msg);
        }
        if self.exited {
            return Action::Ignore;
        }
        let action = match msg {
            Message::Registered { request_id, registration_id } => {
                match self.registers.remove(&request_id) {
                    Some((channel, handler)) => {
                        self.registrations.insert(registration_id, handler);
                        Action::Deliver {
                            channel,
                            reply: Reply::Register(
                                RegisterResponse { registration_id, error: None },
                            ),
                        }
                    },
                    None => Action::Ignore,
                }
            },
            Message::Unregistered { request_id } => {
                match self.unregisters.remove(&request_id) {
                    Some((channel, registration_id)) => {
                        self.registrations.remove(&registration_id);
                        Action::Deliver { channel, reply: Reply::Unregister(None) }
                    },
                    None => Action::Ignore,
                }
            },
            Message::Subscribed { request_id, subscription_id } => {
                match self.subscribes.remove(&request_id) {
                    Some((channel, handler)) => {
                        self.subscriptions.insert(subscription_id, handler);
                        Action::Deliver {
                            channel,
                            reply: Reply::Subscribe(
                                SubscribeResponse { subscription_id, error: None },
                            ),
                        }
                    },
                    None => Action::Ignore,
                }
            },
            Message::Unsubscribed { request_id } => {
                match self.unsubscribes.remove(&request_id) {
                    Some((channel, subscription_id)) => {
                        self.subscriptions.remove(&subscription_id);
                        Action::Deliver { channel, reply: Reply::Unsubscribe(None) }
                    },
                    None => Action::Ignore,
                }
            },
            Message::Result { request_id, details, args, kwargs } => {
                match self.calls.remove(&request_id) {
                    Some(channel) => Action::Deliver {
                        channel,
                        reply: Reply::Call(CallResponse { args, kwargs, error: None }),
                    },
                    None => Action::Ignore,
                }
            },
            Message::Published { request_id, publication_id } => {
                match self.publishes.remove(&request_id) {
                    Some(channel) => Action::Deliver {
                        channel,
                        reply: Reply::Publish(PublishResponse { error: None }),
                    },
                    None => Action::Ignore,
                }
            },
            Message::Invocation { request_id, registration_id, details, args, kwargs } => {
                if self.registrations.contains_key(&registration_id) {
                    Action::Invoke {
                        request_id,
                        registration_id,
                        invocation: IncomingRequest { args, kwargs, details: Some(details) },
                    }
                } else {
                    Action::Ignore
                }
            },
            Message::Event { subscription_id, publication_id, details, args, kwargs } => {
                if self.subscriptions.contains_key(&subscription_id) {
                    Action::Notify {
                        subscription_id,
                        event: IncomingRequest { args, kwargs, details: Some(details) },
                    }
                } else {
                    Action::Ignore
                }
            },
            Message::Error { message_type, request_id, details, uri, args, kwargs } => {
                self.process_error(message_type, request_id, WampError { uri, args, kwargs })
            },
            Message::Goodbye { .. } => {
                let acknowledged = self.goodbye_sent;
                self.end(acknowledged);
                Action::Disconnect { leave_acknowledged: acknowledged }
            },
            _ => Action::Ignore,
        };
        assert(self@ =~= old(self)@.receive(msg).0);
        action
    }

    /// Dispatches an ERROR message by the type of the request it answers.
    fn process_error(&mut self, message_type: u64, request_id: i64, error: WampError) -> (action:
        Action<T>)
        ensures
            final(self).spec_details() == old(self).spec_details(),
            (final(self)@, action) == old(self)@.receive_error(message_type, request_id, error),
    {
        if message_type == MESSAGE_TYPE_CALL {
            match self.calls.remove(&request_id) {
                Some(channel) => Action::Deliver {
                    channel,
                    reply: Reply::Call(CallResponse { args: None, kwargs: None, error: Some(error) }),
                },
                None => Action::Ignore,
            }
        } else if message_type == MESSAGE_TYPE_REGISTER {
            match self.registers.remove(&request_id) {
                Some((channel, _)) => Action::Deliver {
                    channel,
                    reply: Reply::Register(
                        RegisterResponse { registration_id: 0, error: Some(error) },
                    ),
                },
                None => Action::Ignore,
            }
        } else if message_type == MESSAGE_TYPE_UNREGISTER {
            match self.unregisters.remove(&request_id) {
                Some((channel, _)) => Action::Deliver {
                    channel,
                    reply: Reply::Unregister(Some(error)),
                },
                None => Action::Ignore,
            }
        } else if message_type == MESSAGE_TYPE_SUBSCRIBE {
            match self.subscribes.remove(&request_id) {
                Some((channel, _)) => Action::Deliver {
                    channel,
                    reply: Reply::Subscribe(
                        SubscribeResponse { subscription_id: 0, error: Some(error) },
                    ),
                },
                None => Action::Ignore,
            }
        } else if message_type == MESSAGE_TYPE_UNSUBSCRIBE {
            match self.unsubscribes.remove(&request_id) {
                Some((channel, _)) => Action::Deliver {
                    channel,
                    reply: Reply::Unsubscribe(Some(error)),
                },
                None => Action::Ignore,
            }
        } else if message_type == MESSAGE_TYPE_PUBLISH {
            match self.publishes.remove(&request_id) {
                Some(channel) => Action::Deliver {
                    channel,
                    reply: Reply::Publish(PublishResponse { error: Some(error) }),
                },
                None => Action::Ignore,
            }
        } else {
            Action::Ignore
        }
    }

    /// The handler installed under a registration id, if there is one.
    pub fn registration(&self, registration_id: i64) -> (r: Option<&RH>)
        ensures
            match r {
                Some(h) => self@.registrations.contains_key(registration_id)
                    && self@.registrations[registration_id] == *h,
                None => !self@.registrations.contains_key(registration_id),
            },
    {
        self.registrations.get(&registration_id)
    }

    /// The handler installed under a subscription id, if there is one.
    pub fn subscription(&self, subscription_id: i64) -> (r: Option<&EH>)
        ensures
            match r {
                Some(h) => self@.subscriptions.contains_key(subscription_id)
                    && self@.subscriptions[subscription_id] == *h,
                None => !self@.subscriptions.contains_key(subscription_id),
            },
    {
        self.subscriptions.get(&subscription_id)
    }

    /// Whether a request with this id awaits its reply.
    pub fn is_pending(&self, request_id: i64) -> (b: bool)
        ensures
            b == self@.is_pending(request_id),
    {
        self.calls.contains_key(&request_id) || self.registers.contains_key(&request_id)
            || self.unregisters.contains_key(&request_id) || self.publishes.contains_key(
            &request_id,
        ) || self.subscribes.contains_key(&request_id) || self.unsubscribes.contains_key(
            &request_id,
        )
    }

    /// Whether the session has ended.
    pub fn is_closed(&self) -> (b: bool)
        ensures
            b == self@.exited,
    {
        self.exited
    }

    /// Whether GOODBYE was sent from this side.
    pub fn goodbye_sent(&self) -> (b: bool)
        ensures
            b == self@.goodbye_sent,
    {
        self.goodbye_sent
    }

    /// Whether the router has answered a GOODBYE sent from this side.
    pub fn leave_acknowledged(&self) -> (b: bool)
        ensures
            b == self@.goodbye_acked,
    {
        self.goodbye_acked
    }

    /// The number of calls that await their reply.
    pub fn pending_calls(&self) -> (n: usize)
        ensures
            n == self@.calls.len(),
    {
        self.calls.len()
    }
}

/// Whether `after` is `before` with one operation started: the fresh id is
/// used, and at most one pending map has gained an entry, under that id.
pub open spec fn started_from<T, RH, EH>(
    after: SessionView<T, RH, EH>,
    before: SessionView<T, RH, EH>,
) -> bool {
    let id = before.fresh_id();
    ||| after == before.with_id_used()
    ||| after == before.with_call(after.calls[id])
    ||| after == before.with_publish(after.publishes[id])
    ||| after == before.with_register(after.registers[id].0, after.registers[id].1)
    ||| after == before.with_subscribe(after.subscribes[id].0, after.subscribes[id].1)
    ||| after == before.with_unregister(after.unregisters[id].0, after.unregisters[id].1)
    ||| after == before.with_unsubscribe(after.unsubscribes[id].0, after.unsubscribes[id].1)
}

/// Starting an operation on a session that accepts it keeps the session
/// well-formed: the fresh id was pending nowhere.
pub proof fn lemma_started_keeps_wf<T, RH, EH>(
    before: SessionView<T, RH, EH>,
    after: SessionView<T, RH, EH>,
)
    requires
        before.wf(),
        before.refusal() is None,
        started_from(after, before),
    ensures
        after.wf(),
{
    let fresh = before.fresh_id();
    assert(!before.is_pending(fresh));
    assert forall|id: i64| #[trigger] after.is_pending(id) implies 1 <= id < after.next_id by {
        if id != fresh {
            assert(before.is_pending(id));
        }
    }
    assert forall|id: i64| #[trigger] after.pending_classes(id) <= 1 by {
        if id != fresh {
            assert(after.pending_classes(id) == before.pending_classes(id));
            assert(before.pending_classes(id) <= 1);
        } else {
            assert(before.pending_classes(fresh) == 0);
        }
    }
}

/// An ended session is well-formed.
pub proof fn lemma_ended_is_wf<T, RH, EH>(before: SessionView<T, RH, EH>, acknowledged: bool)
    requires
        before.wf(),
        acknowledged ==> before.goodbye_sent,
    ensures
        before.ended(acknowledged).wf(),
{
    let after = before.ended(acknowledged);
    assert forall|id: i64| #[trigger] after.pending_classes(id) == 0 by {}
}

/// Taking a request out of the pending maps keeps the session well-formed,
/// and the request is pending no more.
pub proof fn lemma_without_is_wf<T, RH, EH>(before: SessionView<T, RH, EH>, id: i64)
    requires
        before.wf(),
    ensures
        before.without(id).wf(),
        !before.without(id).is_pending(id),
{
    let after = before.without(id);
    assert forall|other: i64| #[trigger]
        after.pending_classes(other) <= before.pending_classes(other) by {}
    assert forall|other: i64| #[trigger] after.is_pending(other) implies 1 <= other
        < after.next_id by {
        assert(before.is_pending(other));
    }
    assert forall|other: i64| #[trigger] after.pending_classes(other) <= 1 by {
        assert(before.pending_classes(other) <= 1);
    }
    if before.exited {
        assert(after.calls =~= before.calls);
        assert(after.registers =~= before.registers);
        assert(after.unregisters =~= before.unregisters);
        assert(after.publishes =~= before.publishes);
        assert(after.subscribes =~= before.subscribes);
        assert(after.unsubscribes =~= before.unsubscribes);
    }
}

/// Dispatching a message keeps the session well-formed: no request becomes
/// pending by it, and none is pending in more classes than before.
pub proof fn lemma_receive_keeps_wf<T, RH, EH>(before: SessionView<T, RH, EH>, msg: Message)
    requires
        before.wf(),
    ensures
        before.receive(msg).0.wf(),
{
    let after = before.receive(msg).0;
    if before.exited {
    } else if msg is Goodbye {
        lemma_ended_is_wf(before, before.goodbye_sent);
    } else {
        assert forall|id: i64| #[trigger]
            after.pending_classes(id) <= before.pending_classes(id) by {}
        assert forall|id: i64| #[trigger] after.is_pending(id) implies 1 <= id
            < after.next_id by {
            assert(before.is_pending(id));
        }
        assert forall|id: i64| #[trigger] after.pending_classes(id) <= 1 by {
            assert(before.pending_classes(id) <= 1);
        }
    }
}

} // verus!
