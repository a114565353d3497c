//! The values that go into and come out of the session's operations.

use vstd::prelude::*;
use crate::value::{Dict, Value};

verus! {

/// What went wrong, by the part of the client that noticed.
#[derive(Debug, Clone, Copy, PartialEq, Eq, Structural)]
pub enum ErrorKind {
    /// The connection is gone or could not be used.
    Transport,
    /// A frame could not be decoded, or did not fit the session's state.
    Protocol,
    /// The router refused the session during the handshake.
    Join,
    /// The caller asked for something that cannot be sent.
    InvalidRequest,
    /// None of the above was named.
    Unspecified,
}

/// What the router said of the session when it was joined.
#[derive(Debug, Clone)]
pub struct SessionDetails {
    id: i64,
    realm: String,
    authid: String,
    auth_role: String,
}

/// The details of a session as a mathematical value.
pub struct SessionDetailsView {
    pub id: i64,
    pub realm: Seq<char>,
    pub authid: Seq<char>,
    pub auth_role: Seq<char>,
}

impl View for SessionDetails {
    type V = SessionDetailsView;

    closed spec fn view(&self) -> SessionDetailsView {
        SessionDetailsView {
            id: self.id,
            realm: self.realm@,
            authid: self.authid@,
            auth_role: self.auth_role@,
        }
    }
}

impl SessionDetails {
    pub fn new(id: i64, realm: String, authid: String, auth_role: String) -> (d: SessionDetails)
        ensures
            d@ == (SessionDetailsView {
                id,
                realm: realm@,
                authid: authid@,
                auth_role: auth_role@,
            }),
    {
        SessionDetails { id, realm, authid, auth_role }
    }

    /// The session id that the router assigned.
    pub fn id(&self) -> (r: i64)
        ensures
            r == self@.id,
    {
        self.id
    }

    /// The realm that was joined.
    pub fn realm(&self) -> (r: String)
        ensures
            r@ == self@.realm,
    {
        self.realm.clone()
    }

    /// The authentication id under which the session runs.
    pub fn authid(&self) -> (r: String)
        ensures
            r@ == self@.authid,
    {
        self.authid.clone()
    }

    /// The role that the router gave the session.
    pub fn auth_role(&self) -> (r: String)
        ensures
            r@ == self@.auth_role,
    {
        self.auth_role.clone()
    }
}

/// A failure of the client itself, as opposed to an error that the router
/// reports for one request.
#[derive(Debug)]
pub struct Error {
    pub kind: ErrorKind,
    pub message: String,
}

impl Error {
    /// An error with the given message and no kind named.
    pub fn new(msg: &str) -> (e: Error)
        ensures
            e.kind == ErrorKind::Unspecified,
            e.message@ == msg@,
    {
        Error { kind: ErrorKind::Unspecified, message: msg.to_owned() }
    }

    /// An error of the given kind.
    pub fn with_kind(kind: ErrorKind, msg: &str) -> (e: Error)
        ensures
            e.kind == kind,
            e.message@ == msg@,
    {
        Error { kind, message: msg.to_owned() }
    }

    /// The text that the error prints as: `Error: ` and the message.
    pub fn to_text(&self) -> (s: String)
        ensures
            s@ == "Error: "@ + self.message@,
    {
        "Error: ".to_owned().concat(self.message.as_str())
    }
}

/// An application-level error carried by an ERROR message.
#[derive(Debug, PartialEq)]
pub struct WampError {
    pub uri: String,
    pub args: Option<Vec<Value>>,
    pub kwargs: Option<Dict>,
}

/// The outcome of a call.
#[derive(Debug, PartialEq)]
pub struct CallResponse {
    pub args: Option<Vec<Value>>,
    pub kwargs: Option<Dict>,
    pub error: Option<WampError>,
}

/// The outcome of a registration.
#[derive(Debug, PartialEq)]
pub struct RegisterResponse {
    pub registration_id: i64,
    pub error: Option<WampError>,
}

/// The outcome of a subscription.
#[derive(Debug, PartialEq)]
pub struct SubscribeResponse {
    pub subscription_id: i64,
    pub error: Option<WampError>,
}

/// The outcome of an acknowledged publication.
#[derive(Debug, PartialEq)]
pub struct PublishResponse {
    pub error: Option<WampError>,
}

/// What a pending request is answered with, by the class of the request.
#[derive(Debug, PartialEq)]
pub enum Reply {
    Call(CallResponse),
    Register(RegisterResponse),
    Unregister(Option<WampError>),
    Subscribe(SubscribeResponse),
    Unsubscribe(Option<WampError>),
    Publish(PublishResponse),
}

/// An inbound request: the payload of an INVOCATION or of an EVENT.
#[derive(Debug, PartialEq)]
pub struct IncomingRequest {
    pub args: Option<Vec<Value>>,
    pub kwargs: Option<Dict>,
    pub details: Option<Dict>,
}

pub type Invocation = IncomingRequest;

pub type Event = IncomingRequest;

/// What a procedure hands back for one invocation.
#[derive(Debug, PartialEq)]
pub struct Yield {
    pub args: Option<Vec<Value>>,
    pub kwargs: Option<Dict>,
    pub error: Option<WampError>,
}

/// A call to send.
#[derive(Debug, PartialEq)]
pub struct CallRequest {
    pub procedure: String,
    pub options: Dict,
    pub args: Vec<Value>,
    pub kwargs: Dict,
}

/// A publication to send.
#[derive(Debug, PartialEq)]
pub struct PublishRequest {
    pub topic: String,
    pub options: Dict,
    pub args: Vec<Value>,
    pub kwargs: Dict,
}

/// A registration to send, with the handler that will serve it.
pub struct RegisterRequest<H> {
    pub procedure: String,
    pub options: Dict,
    pub callback: H,
}

/// A subscription to send, with the handler that will see its events.
pub struct SubscribeRequest<H> {
    pub topic: String,
    pub options: Dict,
    pub callback: H,
}

impl CallRequest {
    /// A call of `procedure` with no payload and no options.
    pub fn new(procedure: &str) -> (r: CallRequest)
        ensures
            r.procedure@ == procedure@,
            r.args@ == Seq::<Value>::empty(),
            r.kwargs@ == Map::<Seq<char>, Value>::empty(),
            r.options@ == Map::<Seq<char>, Value>::empty(),
    {
        CallRequest { procedure: procedure.to_owned(), options: Dict::new(), args: Vec::new(), kwargs: Dict::new() }
    }

    /// Adds one positional argument after those already there.
    pub fn with_arg(self, arg: Value) -> (r: CallRequest)
        ensures
            r.args@ == self.args@.push(arg),
            r.procedure == self.procedure,
            r.options == self.options,
            r.kwargs == self.kwargs,
    {
        let mut r = self;
        r.args.push(arg);
        r
    }

    /// Replaces the positional arguments.
    pub fn with_args(self, args: Vec<Value>) -> (r: CallRequest)
        ensures
            r == (CallRequest { args, ..self }),
    {
        let mut r = self;
        r.args = args;
        r
    }

    /// Sets one keyword argument, replacing the one of that name.
    pub fn with_kwarg(self, key: &str, value: Value) -> (r: CallRequest)
        ensures
            r.kwargs@ == self.kwargs@.insert(key@, value),
            r.procedure == self.procedure,
            r.options == self.options,
            r.args == self.args,
    {
        let mut r = self;
        let mut kwargs = r.kwargs;
        kwargs.insert(key, value);
        r.kwargs = kwargs;
        r
    }

    /// Replaces the keyword arguments.
    pub fn with_kwargs(self, kwargs: Dict) -> (r: CallRequest)
        ensures
            r == (CallRequest { kwargs, ..self }),
    {
        let mut r = self;
        r.kwargs = kwargs;
        r
    }

    /// Sets one option, replacing the one of that name.
    pub fn with_option(self, key: &str, value: Value) -> (r: CallRequest)
        ensures
            r.options@ == self.options@.insert(key@, value),
            r.procedure == self.procedure,
            r.args == self.args,
            r.kwargs == self.kwargs,
    {
        let mut r = self;
        let mut options = r.options;
        options.insert(key, value);
        r.options = options;
        r
    }

    /// Replaces the options.
    pub fn with_options(self, options: Dict) -> (r: CallRequest)
        ensures
            r == (CallRequest { options, ..self }),
    {
        let mut r = self;
        r.options = options;
        r
    }

    pub fn options(&self) -> (r: &Dict)
        ensures
            *r == self.options,
    {
        &self.options
    }

    pub fn args(&self) -> (r: &Vec<Value>)
        ensures
            *r == self.args,
    {
        &self.args
    }

    pub fn kwargs(&self) -> (r: &Dict)
        ensures
            *r == self.kwargs,
    {
        &self.kwargs
    }

    pub fn procedure(&self) -> (r: String)
        ensures
            r@ == self.procedure@,
    {
        self.procedure.clone()
    }
}

impl PublishRequest {
    /// A publication of `topic` with no payload and no options.
    pub fn new(topic: &str) -> (r: PublishRequest)
        ensures
            r.topic@ == topic@,
            r.args@ == Seq::<Value>::empty(),
            r.kwargs@ == Map::<Seq<char>, Value>::empty(),
            r.options@ == Map::<Seq<char>, Value>::empty(),
    {
        PublishRequest { topic: topic.to_owned(), options: Dict::new(), args: Vec::new(), kwargs: Dict::new() }
    }

    /// Adds one positional argument after those already there.
    pub fn with_arg(self, arg: Value) -> (r: PublishRequest)
        ensures
            r.args@ == self.args@.push(arg),
            r.topic == self.topic,
            r.options == self.options,
            r.kwargs == self.kwargs,
    {
        let mut r = self;
        r.args.push(arg);
        r
    }

    /// Replaces the positional arguments.
    pub fn with_args(self, args: Vec<Value>) -> (r: PublishRequest)
        ensures
            r == (PublishRequest { args, ..self }),
    {
        let mut r = self;
        r.args = args;
        r
    }

    /// Sets one keyword argument, replacing the one of that name.
    pub fn with_kwarg(self, key: &str, value: Value) -> (r: PublishRequest)
        ensures
            r.kwargs@ == self.kwargs@.insert(key@, value),
            r.topic == self.topic,
            r.options == self.options,
            r.args == self.args,
    {
        let mut r = self;
        let mut kwargs = r.kwargs;
        kwargs.insert(key, value);
        r.kwargs = kwargs;
        r
    }

    /// Replaces the keyword arguments.
    pub fn with_kwargs(self, kwargs: Dict) -> (r: PublishRequest)
        ensures
            r == (PublishRequest { kwargs, ..self }),
    {
        let mut r = self;
        r.kwargs = kwargs;
        r
    }

    /// Sets one option, replacing the one of that name.
    pub fn with_option(self, key: &str, value: Value) -> (r: PublishRequest)
        ensures
            r.options@ == self.options@.insert(key@, value),
            r.topic == self.topic,
            r.args == self.args,
            r.kwargs == self.kwargs,
    {
        let mut r = self;
        let mut options = r.options;
        options.insert(key, value);
        r.options = options;
        r
    }

    /// Replaces the options.
    pub fn with_options(self, options: Dict) -> (r: PublishRequest)
        ensures
            r == (PublishRequest { options, ..self }),
    {
        let mut r = self;
        r.options = options;
        r
    }

    pub fn options(&self) -> (r: &Dict)
        ensures
            *r == self.options,
    {
        &self.options
    }

    pub fn args(&self) -> (r: &Vec<Value>)
        ensures
            *r == self.args,
    {
        &self.args
    }

    pub fn kwargs(&self) -> (r: &Dict)
        ensures
            *r == self.kwargs,
    {
        &self.kwargs
    }

    pub fn topic(&self) -> (r: String)
        ensures
            r@ == self.topic@,
    {
        self.topic.clone()
    }
}

impl<H> RegisterRequest<H> {
    /// A registration of `procedure` with the handler that will serve it and no
    /// options.
    pub fn new(procedure: &str, callback: H) -> (r: RegisterRequest<H>)
        ensures
            r.procedure@ == procedure@,
            r.options@ == Map::<Seq<char>, Value>::empty(),
            r.callback == callback,
    {
        RegisterRequest { procedure: procedure.to_owned(), options: Dict::new(), callback }
    }

    /// Sets one option, replacing the one of that name.
    pub fn with_option(self, key: &str, value: Value) -> (r: RegisterRequest<H>)
        ensures
            r.options@ == self.options@.insert(key@, value),
            r.procedure == self.procedure,
            r.callback == self.callback,
    {
        let mut r = self;
        let mut options = r.options;
        options.insert(key, value);
        r.options = options;
        r
    }

    /// Replaces the options.
    pub fn with_options(self, options: Dict) -> (r: RegisterRequest<H>)
        ensures
            r == (RegisterRequest { options, ..self }),
    {
        let mut r = self;
        r.options = options;
        r
    }

    pub fn options(&self) -> (r: &Dict)
        ensures
            *r == self.options,
    {
        &self.options
    }

    pub fn procedure(&self) -> (r: String)
        ensures
            r@ == self.procedure@,
    {
        self.procedure.clone()
    }

    pub fn callback(&self) -> (r: &H)
        ensures
            *r == self.callback,
    {
        &self.callback
    }
}

impl<H> SubscribeRequest<H> {
    /// A subscription of `topic` with the handler that will serve it and no
    /// options.
    pub fn new(topic: &str, callback: H) -> (r: SubscribeRequest<H>)
        ensures
            r.topic@ == topic@,
            r.options@ == Map::<Seq<char>, Value>::empty(),
            r.callback == callback,
    {
        SubscribeRequest { topic: topic.to_owned(), options: Dict::new(), callback }
    }

    /// Sets one option, replacing the one of that name.
    pub fn with_option(self, key: &str, value: Value) -> (r: SubscribeRequest<H>)
        ensures
            r.options@ == self.options@.insert(key@, value),
            r.topic == self.topic,
            r.callback == self.callback,
    {
        let mut r = self;
        let mut options = r.options;
        options.insert(key, value);
        r.options = options;
        r
    }

    /// Replaces the options.
    pub fn with_options(self, options: Dict) -> (r: SubscribeRequest<H>)
        ensures
            r == (SubscribeRequest { options, ..self }),
    {
        let mut r = self;
        r.options = options;
        r
    }

    pub fn options(&self) -> (r: &Dict)
        ensures
            *r == self.options,
    {
        &self.options
    }

    pub fn topic(&self) -> (r: String)
        ensures
            r@ == self.topic@,
    {
        self.topic.clone()
    }

    pub fn callback(&self) -> (r: &H)
        ensures
            *r == self.callback,
    {
        &self.callback
    }
}

impl Yield {
    /// A result with positional and keyword arguments.
    pub fn new(args: Vec<Value>, kwargs: Dict) -> (y: Yield)
        ensures
            y == (Yield { args: Some(args), kwargs: Some(kwargs), error: None }),
    {
        Yield { args: Some(args), kwargs: Some(kwargs), error: None }
    }

    /// A result with positional arguments only.
    pub fn args(args: Vec<Value>) -> (y: Yield)
        ensures
            y == (Yield { args: Some(args), kwargs: None, error: None }),
    {
        Yield { args: Some(args), kwargs: None, error: None }
    }

    /// A result with one positional argument.
    pub fn arg(arg: Value) -> (y: Yield)
        ensures
            y.args matches Some(list) && list@ == seq![arg],
            y.kwargs is None,
            y.error is None,
    {
        let mut list: Vec<Value> = Vec::new();
        list.push(arg);
        Yield { args: Some(list), kwargs: None, error: None }
    }

    /// A result with one keyword argument.
    pub fn kwarg(key: &str, value: Value) -> (y: Yield)
        ensures
            y.args is None,
            y.kwargs matches Some(d) && d@ == Map::<Seq<char>, Value>::empty().insert(key@, value),
            y.error is None,
    {
        let mut d = Dict::new();
        d.insert(key, value);
        Yield { args: None, kwargs: Some(d), error: None }
    }

    /// A result with keyword arguments only.
    pub fn kwargs(kwargs: Dict) -> (y: Yield)
        ensures
            y == (Yield { args: None, kwargs: Some(kwargs), error: None }),
    {
        Yield { args: None, kwargs: Some(kwargs), error: None }
    }

    /// The failure of the procedure, named by an error URI.
    pub fn error(uri: &str) -> (y: Yield)
        ensures
            y.args is None,
            y.kwargs is None,
            y.error matches Some(e) && e.uri@ == uri@ && e.args is None && e.kwargs is None,
    {
        Yield {
            args: None,
            kwargs: None,
            error: Some(WampError { uri: uri.to_owned(), args: None, kwargs: None }),
        }
    }
}

} // verus!
