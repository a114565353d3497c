use xconn::idgen::{IdGenerator, MAX_REQUEST_ID};
use xconn::message::Message;
use xconn::session::{
    acknowledge_requested, call_outcome, invocation_failure, invocation_reply, publish_outcome,
    register_outcome, subscribe_outcome, unregister_outcome, unsubscribe_outcome, Action, Session,
};
use xconn::types::{
    CallRequest, CallResponse, ErrorKind, IncomingRequest, PublishRequest, PublishResponse,
    RegisterRequest, RegisterResponse, Reply, SessionDetails, SubscribeRequest, SubscribeResponse,
    WampError, Yield,
};
use xconn::value::{Dict, Value};

type TestSession = Session<u32, &'static str, &'static str>;

fn details() -> SessionDetails {
    SessionDetails::new(7, "realm1".to_string(), "john".to_string(), "anonymous".to_string())
}

fn new_session() -> TestSession {
    Session::new(details())
}

fn name_john() -> Dict {
    let mut d = Dict::new();
    d.insert("name", Value::Str("John".to_string()));
    d
}

fn text(s: &str) -> Value {
    Value::Str(s.to_string())
}

fn echo(inv: IncomingRequest) -> Yield {
    Yield { args: inv.args, kwargs: inv.kwargs, error: None }
}

#[test]
fn new_session_is_empty() {
    let s = new_session();
    assert!(!s.is_closed());
    assert!(!s.goodbye_sent());
    assert!(!s.leave_acknowledged());
    assert_eq!(s.pending_calls(), 0);
    assert_eq!(s.details().id(), 7);
    assert_eq!(s.details().realm(), "realm1");
    assert!(s.registration(1).is_none());
    assert!(s.subscription(1).is_none());
}

#[test]
fn echo_call() {
    let mut s = new_session();
    let (reg_req, reg_msg) =
        s.begin_register(RegisterRequest::new("io.xconn.echo", "echo"), 1).unwrap();
    assert_eq!(reg_req, 1);
    assert_eq!(
        reg_msg,
        Message::Register {
            request_id: 1,
            options: Dict::new(),
            procedure: "io.xconn.echo".to_string()
        }
    );
    let action =
        s.process_incoming_message(Message::Registered { request_id: 1, registration_id: 900 });
    assert_eq!(
        action,
        Action::Deliver {
            channel: 1,
            reply: Reply::Register(RegisterResponse { registration_id: 900, error: None }),
        }
    );
    assert_eq!(s.registration(900), Some(&"echo"));

    let request = CallRequest::new("io.xconn.echo")
        .with_arg(Value::Integer(1))
        .with_kwarg("name", text("John"));
    let (call_id, call_msg) = s.begin_call(request, 2).unwrap();
    assert_eq!(call_id, 2);
    assert_eq!(
        call_msg,
        Message::Call {
            request_id: 2,
            options: Dict::new(),
            procedure: "io.xconn.echo".to_string(),
            args: Some(vec![Value::Integer(1)]),
            kwargs: Some(name_john()),
        }
    );

    let action = s.process_incoming_message(Message::Invocation {
        request_id: 55,
        registration_id: 900,
        details: Dict::new(),
        args: Some(vec![Value::Integer(1)]),
        kwargs: Some(name_john()),
    });
    let invocation = match action {
        Action::Invoke { request_id, registration_id, invocation } => {
            assert_eq!(request_id, 55);
            assert_eq!(registration_id, 900);
            invocation
        }
        other => panic!("unexpected action {:?}", other),
    };
    assert_eq!(invocation.details, Some(Dict::new()));
    let reply = invocation_reply(55, echo(invocation));
    assert_eq!(
        reply,
        Message::Yield {
            request_id: 55,
            options: Dict::new(),
            args: Some(vec![Value::Integer(1)]),
            kwargs: Some(name_john()),
        }
    );

    let action = s.process_incoming_message(Message::Result {
        request_id: 2,
        details: Dict::new(),
        args: Some(vec![Value::Integer(1)]),
        kwargs: Some(name_john()),
    });
    assert_eq!(
        action,
        Action::Deliver {
            channel: 2,
            reply: Reply::Call(CallResponse {
                args: Some(vec![Value::Integer(1)]),
                kwargs: Some(name_john()),
                error: None,
            }),
        }
    );
    assert_eq!(s.pending_calls(), 0);
}

#[test]
fn publish_unacknowledged() {
    let mut s = new_session();
    let request = PublishRequest::new("t").with_arg(text("x"));
    let (id, msg, unused) = s.begin_publish(request, 5).unwrap();
    assert_eq!(id, 1);
    assert_eq!(unused, Some(5));
    assert_eq!(
        msg,
        Message::Publish {
            request_id: 1,
            options: Dict::new(),
            topic: "t".to_string(),
            args: Some(vec![text("x")]),
            kwargs: Some(Dict::new()),
        }
    );
    assert_eq!(s.cancel(1), None);
    let action = s.process_incoming_message(Message::Published { request_id: 1, publication_id: 9 });
    assert_eq!(action, Action::Ignore);
}

#[test]
fn publish_acknowledge_false_is_unacknowledged() {
    let mut s = new_session();
    let request = PublishRequest::new("t").with_option("acknowledge", Value::Bool(false));
    let (_, _, unused) = s.begin_publish(request, 5).unwrap();
    assert_eq!(unused, Some(5));
    let request = PublishRequest::new("t").with_option("acknowledge", Value::Integer(1));
    let (id, _, unused) = s.begin_publish(request, 6).unwrap();
    assert_eq!(id, 2);
    assert_eq!(unused, Some(6));
}

#[test]
fn publish_acknowledged() {
    let mut s = new_session();
    let request = PublishRequest::new("t")
        .with_arg(text("x"))
        .with_option("acknowledge", Value::Bool(true));
    let (id, msg, unused) = s.begin_publish(request, 5).unwrap();
    assert_eq!(id, 1);
    assert_eq!(unused, None);
    assert_eq!(msg.message_type(), 16);
    let action =
        s.process_incoming_message(Message::Published { request_id: 1, publication_id: 42 });
    assert_eq!(
        action,
        Action::Deliver { channel: 5, reply: Reply::Publish(PublishResponse { error: None }) }
    );
    let again =
        s.process_incoming_message(Message::Published { request_id: 1, publication_id: 42 });
    assert_eq!(again, Action::Ignore);
}

#[test]
fn call_error() {
    let mut s = new_session();
    let (id, _) = s.begin_call(CallRequest::new("bad"), 3).unwrap();
    let action = s.process_incoming_message(Message::Error {
        message_type: 48,
        request_id: id,
        details: Dict::new(),
        uri: "wamp.error.no_such_procedure".to_string(),
        args: None,
        kwargs: None,
    });
    assert_eq!(
        action,
        Action::Deliver {
            channel: 3,
            reply: Reply::Call(CallResponse {
                args: None,
                kwargs: None,
                error: Some(WampError {
                    uri: "wamp.error.no_such_procedure".to_string(),
                    args: None,
                    kwargs: None,
                }),
            }),
        }
    );
    assert_eq!(s.pending_calls(), 0);
}

#[test]
fn event_fan_out() {
    let mut s = new_session();
    let (id, msg) = s.begin_subscribe(SubscribeRequest::new("e", "on_e"), 1).unwrap();
    assert_eq!(
        msg,
        Message::Subscribe { request_id: 1, options: Dict::new(), topic: "e".to_string() }
    );
    let action =
        s.process_incoming_message(Message::Subscribed { request_id: id, subscription_id: 77 });
    assert_eq!(
        action,
        Action::Deliver {
            channel: 1,
            reply: Reply::Subscribe(SubscribeResponse { subscription_id: 77, error: None }),
        }
    );
    assert_eq!(s.subscription(77), Some(&"on_e"));
    let mut seen: Vec<Vec<Value>> = Vec::new();
    for (n, payload) in ["a", "b", "c"].iter().enumerate() {
        let action = s.process_incoming_message(Message::Event {
            subscription_id: 77,
            publication_id: n as i64,
            details: Dict::new(),
            args: Some(vec![text(payload)]),
            kwargs: None,
        });
        match action {
            Action::Notify { subscription_id, event } => {
                assert_eq!(subscription_id, 77);
                seen.push(event.args.unwrap());
            }
            other => panic!("unexpected action {:?}", other),
        }
    }
    assert_eq!(seen, vec![vec![text("a")], vec![text("b")], vec![text("c")]]);
}

#[test]
fn event_without_subscription_is_dropped() {
    let mut s = new_session();
    let action = s.process_incoming_message(Message::Event {
        subscription_id: 77,
        publication_id: 1,
        details: Dict::new(),
        args: None,
        kwargs: None,
    });
    assert_eq!(action, Action::Ignore);
    let action = s.process_incoming_message(Message::Invocation {
        request_id: 1,
        registration_id: 5,
        details: Dict::new(),
        args: None,
        kwargs: None,
    });
    assert_eq!(action, Action::Ignore);
}

#[test]
fn orderly_leave() {
    let mut s = new_session();
    let msg = s.begin_leave().unwrap();
    assert_eq!(
        msg,
        Message::Goodbye { details: Dict::new(), reason: "wamp.close.close_realm".to_string() }
    );
    assert!(s.goodbye_sent());
    assert!(!s.leave_acknowledged());
    assert!(!s.is_closed());
    let action = s.process_incoming_message(Message::Goodbye {
        details: Dict::new(),
        reason: "wamp.close.goodbye_and_out".to_string(),
    });
    assert_eq!(action, Action::Disconnect { leave_acknowledged: true });
    assert!(s.leave_acknowledged());
    assert!(s.is_closed());
}

#[test]
fn router_goodbye_closes_session() {
    let mut s = new_session();
    s.begin_call(CallRequest::new("p"), 1).unwrap();
    let action = s.process_incoming_message(Message::Goodbye {
        details: Dict::new(),
        reason: "wamp.close.system_shutdown".to_string(),
    });
    assert_eq!(action, Action::Disconnect { leave_acknowledged: false });
    assert!(s.is_closed());
    assert!(!s.leave_acknowledged());
    assert_eq!(s.pending_calls(), 0);
    assert_eq!(s.begin_call(CallRequest::new("p"), 2).unwrap_err().kind, ErrorKind::Transport);
    assert_eq!(
        s.begin_publish(PublishRequest::new("t"), 2).unwrap_err().kind,
        ErrorKind::Transport
    );
    assert_eq!(
        s.begin_register(RegisterRequest::new("p", "h"), 2).unwrap_err().kind,
        ErrorKind::Transport
    );
    assert_eq!(
        s.begin_subscribe(SubscribeRequest::new("t", "h"), 2).unwrap_err().kind,
        ErrorKind::Transport
    );
    assert_eq!(s.begin_unregister(1, 2).unwrap_err().kind, ErrorKind::Transport);
    assert_eq!(s.begin_unsubscribe(1, 2).unwrap_err().kind, ErrorKind::Transport);
    assert_eq!(s.begin_leave().unwrap_err().kind, ErrorKind::Transport);
    let later = s.process_incoming_message(Message::Result {
        request_id: 1,
        details: Dict::new(),
        args: None,
        kwargs: None,
    });
    assert_eq!(later, Action::Ignore);
}

#[test]
fn close_drops_pending_requests() {
    let mut s = new_session();
    s.begin_call(CallRequest::new("p"), 1).unwrap();
    s.begin_call(CallRequest::new("q"), 2).unwrap();
    assert_eq!(s.pending_calls(), 2);
    s.close();
    assert!(s.is_closed());
    assert!(!s.leave_acknowledged());
    assert_eq!(s.pending_calls(), 0);
    assert_eq!(s.cancel(1), None);
}

#[test]
fn pending_calls_are_counted() {
    let mut s = new_session();
    let mut ids = Vec::new();
    for n in 0..10u32 {
        let (id, _) = s.begin_call(CallRequest::new("p"), n).unwrap();
        ids.push(id);
    }
    assert_eq!(s.pending_calls(), 10);
    assert_eq!(ids, (1..=10).collect::<Vec<i64>>());
    for (n, id) in ids.iter().enumerate().rev() {
        let action = s.process_incoming_message(Message::Result {
            request_id: *id,
            details: Dict::new(),
            args: None,
            kwargs: None,
        });
        assert_eq!(
            action,
            Action::Deliver {
                channel: n as u32,
                reply: Reply::Call(CallResponse { args: None, kwargs: None, error: None }),
            }
        );
    }
    assert_eq!(s.pending_calls(), 0);
}

#[test]
fn request_ids_increase_across_classes() {
    let mut s = new_session();
    let (a, _) = s.begin_call(CallRequest::new("p"), 0).unwrap();
    let (b, _, _) = s.begin_publish(PublishRequest::new("t"), 0).unwrap();
    let (c, _) = s.begin_register(RegisterRequest::new("p", "h"), 0).unwrap();
    let (d, _) = s.begin_subscribe(SubscribeRequest::new("t", "h"), 0).unwrap();
    let (e, _) = s.begin_unregister(4, 0).unwrap();
    let (f, _) = s.begin_unsubscribe(4, 0).unwrap();
    assert_eq!(vec![a, b, c, d, e, f], vec![1, 2, 3, 4, 5, 6]);
}

#[test]
fn unsolicited_replies_are_dropped() {
    let mut s = new_session();
    s.begin_call(CallRequest::new("p"), 1).unwrap();
    let action = s.process_incoming_message(Message::Result {
        request_id: 99,
        details: Dict::new(),
        args: None,
        kwargs: None,
    });
    assert_eq!(action, Action::Ignore);
    let action = s.process_incoming_message(Message::Error {
        message_type: 48,
        request_id: 99,
        details: Dict::new(),
        uri: "wamp.error.canceled".to_string(),
        args: None,
        kwargs: None,
    });
    assert_eq!(action, Action::Ignore);
    assert_eq!(s.pending_calls(), 1);
}

#[test]
fn error_of_another_class_does_not_answer_a_call() {
    let mut s = new_session();
    let (id, _) = s.begin_call(CallRequest::new("p"), 1).unwrap();
    for message_type in [64u64, 66, 32, 34, 16, 68, 0] {
        let action = s.process_incoming_message(Message::Error {
            message_type,
            request_id: id,
            details: Dict::new(),
            uri: "wamp.error.x".to_string(),
            args: None,
            kwargs: None,
        });
        assert_eq!(action, Action::Ignore);
    }
    assert_eq!(s.pending_calls(), 1);
}

#[test]
fn errors_reach_each_class() {
    let mut s = new_session();
    let failure = || WampError { uri: "wamp.error.x".to_string(), args: None, kwargs: None };
    let error = |message_type: u64, request_id: i64| Message::Error {
        message_type,
        request_id,
        details: Dict::new(),
        uri: "wamp.error.x".to_string(),
        args: None,
        kwargs: None,
    };
    let (r, _) = s.begin_register(RegisterRequest::new("p", "h"), 10).unwrap();
    assert_eq!(
        s.process_incoming_message(error(64, r)),
        Action::Deliver {
            channel: 10,
            reply: Reply::Register(RegisterResponse { registration_id: 0, error: Some(failure()) }),
        }
    );
    assert!(s.registration(0).is_none());
    let (u, _) = s.begin_unregister(5, 11).unwrap();
    assert_eq!(
        s.process_incoming_message(error(66, u)),
        Action::Deliver { channel: 11, reply: Reply::Unregister(Some(failure())) }
    );
    let (sb, _) = s.begin_subscribe(SubscribeRequest::new("t", "h"), 12).unwrap();
    assert_eq!(
        s.process_incoming_message(error(32, sb)),
        Action::Deliver {
            channel: 12,
            reply: Reply::Subscribe(SubscribeResponse {
                subscription_id: 0,
                error: Some(failure())
            }),
        }
    );
    let (us, _) = s.begin_unsubscribe(5, 13).unwrap();
    assert_eq!(
        s.process_incoming_message(error(34, us)),
        Action::Deliver { channel: 13, reply: Reply::Unsubscribe(Some(failure())) }
    );
    let request = PublishRequest::new("t").with_option("acknowledge", Value::Bool(true));
    let (p, _, _) = s.begin_publish(request, 14).unwrap();
    assert_eq!(
        s.process_incoming_message(error(16, p)),
        Action::Deliver {
            channel: 14,
            reply: Reply::Publish(PublishResponse { error: Some(failure()) }),
        }
    );
}

#[test]
fn unregister_removes_the_handler() {
    let mut s = new_session();
    let (r, _) = s.begin_register(RegisterRequest::new("p", "h"), 1).unwrap();
    s.process_incoming_message(Message::Registered { request_id: r, registration_id: 40 });
    assert_eq!(s.registration(40), Some(&"h"));
    let (u, msg) = s.begin_unregister(40, 2).unwrap();
    assert_eq!(msg, Message::Unregister { request_id: u, registration_id: 40 });
    assert_eq!(s.registration(40), Some(&"h"));
    let action = s.process_incoming_message(Message::Unregistered { request_id: u });
    assert_eq!(action, Action::Deliver { channel: 2, reply: Reply::Unregister(None) });
    assert!(s.registration(40).is_none());
    let action = s.process_incoming_message(Message::Invocation {
        request_id: 1,
        registration_id: 40,
        details: Dict::new(),
        args: None,
        kwargs: None,
    });
    assert_eq!(action, Action::Ignore);
}

#[test]
fn unsubscribe_removes_the_handler() {
    let mut s = new_session();
    let (r, _) = s.begin_subscribe(SubscribeRequest::new("t", "h"), 1).unwrap();
    s.process_incoming_message(Message::Subscribed { request_id: r, subscription_id: 41 });
    let (u, msg) = s.begin_unsubscribe(41, 2).unwrap();
    assert_eq!(msg, Message::Unsubscribe { request_id: u, subscription_id: 41 });
    let action = s.process_incoming_message(Message::Unsubscribed { request_id: u });
    assert_eq!(action, Action::Deliver { channel: 2, reply: Reply::Unsubscribe(None) });
    assert!(s.subscription(41).is_none());
}

#[test]
fn cancel_returns_the_channel_and_later_reply_is_dropped() {
    let mut s = new_session();
    let (id, _) = s.begin_call(CallRequest::new("p"), 8).unwrap();
    let (rid, _) = s.begin_register(RegisterRequest::new("p", "h"), 9).unwrap();
    assert_eq!(s.cancel(id), Some(8));
    assert_eq!(s.cancel(id), None);
    assert_eq!(s.cancel(rid), Some(9));
    assert_eq!(s.pending_calls(), 0);
    let action = s.process_incoming_message(Message::Result {
        request_id: id,
        details: Dict::new(),
        args: None,
        kwargs: None,
    });
    assert_eq!(action, Action::Ignore);
    let action =
        s.process_incoming_message(Message::Registered { request_id: rid, registration_id: 3 });
    assert_eq!(action, Action::Ignore);
    assert!(s.registration(3).is_none());
}

#[test]
fn other_messages_are_ignored() {
    let mut s = new_session();
    s.begin_call(CallRequest::new("p"), 1).unwrap();
    assert_eq!(s.process_incoming_message(Message::Other { message_type: 49 }), Action::Ignore);
    assert_eq!(
        s.process_incoming_message(Message::Welcome { session_id: 1, details: Dict::new() }),
        Action::Ignore
    );
    assert_eq!(s.pending_calls(), 1);
    assert!(!s.is_closed());
}

#[test]
fn exhausted_ids_refuse_with_protocol_error() {
    let idgen = IdGenerator::starting_at(MAX_REQUEST_ID).unwrap();
    let mut s: TestSession = Session::with_ids(details(), idgen);
    let (id, _) = s.begin_call(CallRequest::new("p"), 1).unwrap();
    assert_eq!(id, MAX_REQUEST_ID);
    let err = s.begin_call(CallRequest::new("p"), 2).unwrap_err();
    assert_eq!(err.kind, ErrorKind::Protocol);
    assert_eq!(s.pending_calls(), 1);
    assert!(s.begin_leave().is_ok());
}

#[test]
fn handler_error_becomes_invocation_error() {
    let msg = invocation_reply(12, Yield::error("com.example.failed"));
    assert_eq!(
        msg,
        Message::Error {
            message_type: 68,
            request_id: 12,
            details: Dict::new(),
            uri: "com.example.failed".to_string(),
            args: None,
            kwargs: None,
        }
    );
    assert_eq!(
        invocation_failure(13),
        Message::Error {
            message_type: 68,
            request_id: 13,
            details: Dict::new(),
            uri: "wamp.error.runtime_error".to_string(),
            args: None,
            kwargs: None,
        }
    );
}

#[test]
fn acknowledge_is_read_from_the_options() {
    let mut d = Dict::new();
    assert!(!acknowledge_requested(&d));
    d.insert("acknowledge", Value::Bool(true));
    assert!(acknowledge_requested(&d));
    d.insert("acknowledge", Value::Bool(false));
    assert!(!acknowledge_requested(&d));
    d.insert("acknowledge", text("true"));
    assert!(!acknowledge_requested(&d));
}

#[test]
fn outcomes_of_waiting() {
    let call = || CallResponse { args: Some(vec![Value::Integer(1)]), kwargs: None, error: None };
    assert_eq!(call_outcome(Some(Reply::Call(call()))).unwrap(), call());
    assert_eq!(call_outcome(None).unwrap_err().kind, ErrorKind::Transport);
    assert_eq!(
        call_outcome(Some(Reply::Unregister(None))).unwrap_err().kind,
        ErrorKind::Protocol
    );
    let registered = || RegisterResponse { registration_id: 4, error: None };
    assert_eq!(register_outcome(Some(Reply::Register(registered()))).unwrap(), registered());
    assert_eq!(register_outcome(None).unwrap_err().kind, ErrorKind::Transport);
    assert_eq!(
        register_outcome(Some(Reply::Call(call()))).unwrap_err().kind,
        ErrorKind::Protocol
    );
    let subscribed = || SubscribeResponse { subscription_id: 5, error: None };
    assert_eq!(subscribe_outcome(Some(Reply::Subscribe(subscribed()))).unwrap(), subscribed());
    assert_eq!(subscribe_outcome(None).unwrap_err().kind, ErrorKind::Transport);
    assert_eq!(
        subscribe_outcome(Some(Reply::Call(call()))).unwrap_err().kind,
        ErrorKind::Protocol
    );
    assert_eq!(
        publish_outcome(Some(Reply::Publish(PublishResponse { error: None }))).unwrap(),
        Some(PublishResponse { error: None })
    );
    assert_eq!(publish_outcome(None).unwrap_err().kind, ErrorKind::Transport);
    assert_eq!(
        publish_outcome(Some(Reply::Call(call()))).unwrap_err().kind,
        ErrorKind::Protocol
    );
    let failure = || WampError { uri: "wamp.error.x".to_string(), args: None, kwargs: None };
    assert_eq!(unregister_outcome(Some(Reply::Unregister(None))).unwrap(), None);
    assert_eq!(
        unregister_outcome(Some(Reply::Unregister(Some(failure())))).unwrap(),
        Some(failure())
    );
    assert_eq!(unregister_outcome(None).unwrap_err().kind, ErrorKind::Transport);
    assert_eq!(
        unregister_outcome(Some(Reply::Unsubscribe(None))).unwrap_err().kind,
        ErrorKind::Protocol
    );
    assert_eq!(unsubscribe_outcome(Some(Reply::Unsubscribe(None))).unwrap(), None);
    assert_eq!(
        unsubscribe_outcome(Some(Reply::Unsubscribe(Some(failure())))).unwrap(),
        Some(failure())
    );
    assert_eq!(unsubscribe_outcome(None).unwrap_err().kind, ErrorKind::Transport);
    assert_eq!(
        unsubscribe_outcome(Some(Reply::Unregister(None))).unwrap_err().kind,
        ErrorKind::Protocol
    );
}

#[test]
fn failed_write_removes_the_pending_entry() {
    let mut s = new_session();
    let (id, _) = s.begin_call(CallRequest::new("p"), 1).unwrap();
    assert!(s.is_pending(id));
    let e = s.write_failed(id, "broken pipe");
    assert_eq!(e.kind, ErrorKind::Transport);
    assert_eq!(e.message, "failed to send message: broken pipe");
    assert!(!s.is_pending(id));
    assert_eq!(s.pending_calls(), 0);
    assert!(!s.is_closed());
    let (next, _) = s.begin_call(CallRequest::new("p"), 2).unwrap();
    assert_eq!(next, id + 1);
}

#[test]
fn pending_by_class() {
    let mut s = new_session();
    assert!(!s.is_pending(1));
    let (a, _) = s.begin_register(RegisterRequest::new("p", "h"), 0).unwrap();
    let request = PublishRequest::new("t").with_option("acknowledge", Value::Bool(true));
    let (b, _, _) = s.begin_publish(request, 0).unwrap();
    let (c, _, _) = s.begin_publish(PublishRequest::new("t"), 0).unwrap();
    assert!(s.is_pending(a));
    assert!(s.is_pending(b));
    assert!(!s.is_pending(c));
    assert_eq!(s.pending_calls(), 0);
}

#[test]
fn refusal_messages() {
    let mut s = new_session();
    s.close();
    assert_eq!(s.begin_call(CallRequest::new("p"), 1).unwrap_err().message, "session is closed");
    assert_eq!(s.begin_leave().unwrap_err().message, "session is closed");
    let idgen = IdGenerator::starting_at(MAX_REQUEST_ID + 1).unwrap();
    let mut s: TestSession = Session::with_ids(details(), idgen);
    assert_eq!(
        s.begin_call(CallRequest::new("p"), 1).unwrap_err().message,
        "request ids exhausted"
    );
}
