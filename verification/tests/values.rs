use xconn::idgen::{IdGenerator, MAX_REQUEST_ID};
use xconn::message::Message;
use xconn::types::{CallRequest, Error, ErrorKind, PublishRequest, SessionDetails, Yield};
use xconn::value::{Dict, Value};

#[test]
fn dict_insert_and_get() {
    let mut d = Dict::new();
    assert_eq!(d.len(), 0);
    assert_eq!(d.get("a"), None);
    assert!(!d.contains_key("a"));
    d.insert("a", Value::Integer(1));
    d.insert("b", Value::Bool(true));
    assert_eq!(d.len(), 2);
    assert_eq!(d.get("a"), Some(&Value::Integer(1)));
    assert_eq!(d.get("b"), Some(&Value::Bool(true)));
    assert_eq!(d.get("c"), None);
    assert!(d.contains_key("b"));
}

#[test]
fn dict_insert_replaces() {
    let mut d = Dict::new();
    d.insert("a", Value::Integer(1));
    d.insert("b", Value::Integer(2));
    d.insert("a", Value::Integer(3));
    assert_eq!(d.len(), 2);
    assert_eq!(d.get("a"), Some(&Value::Integer(3)));
    assert_eq!(d.get("b"), Some(&Value::Integer(2)));
    let (k, v) = d.entry(0);
    assert_eq!(k, "a");
    assert_eq!(v, &Value::Integer(3));
    let entries = d.into_entries();
    assert_eq!(
        entries,
        vec![("a".to_string(), Value::Integer(3)), ("b".to_string(), Value::Integer(2))]
    );
}

#[test]
fn values_compare_by_content() {
    let half = Value::Float(0.5f64.to_bits());
    assert_eq!(half, Value::Float(0x3FE0000000000000));
    assert_ne!(Value::Integer(1), Value::Float(1.0f64.to_bits()));
    assert_eq!(
        Value::List(vec![Value::Null, Value::Bytes(vec![1, 2])]),
        Value::List(vec![Value::Null, Value::Bytes(vec![1, 2])])
    );
    let mut d = Dict::new();
    d.insert("k", Value::Null);
    let mut e = Dict::new();
    e.insert("k", Value::Null);
    assert_eq!(Value::Dict(d), Value::Dict(e));
}

#[test]
fn ids_start_at_one_and_increase() {
    let mut g = IdGenerator::new();
    assert_eq!(g.peek_next(), 1);
    assert_eq!(g.next_id(), Some(1));
    assert_eq!(g.next_id(), Some(2));
    assert_eq!(g.next_id(), Some(3));
    assert_eq!(g.peek_next(), 4);
}

#[test]
fn ids_end_below_two_to_the_53() {
    assert_eq!(MAX_REQUEST_ID, (1i64 << 53) - 1);
    let mut g = IdGenerator::starting_at(MAX_REQUEST_ID).unwrap();
    assert_eq!(g.next_id(), Some(MAX_REQUEST_ID));
    assert_eq!(g.next_id(), None);
    assert_eq!(g.next_id(), None);
    assert!(IdGenerator::starting_at(0).is_none());
    assert!(IdGenerator::starting_at(-1).is_none());
    assert!(IdGenerator::starting_at(MAX_REQUEST_ID + 1).is_some());
    assert!(IdGenerator::starting_at(MAX_REQUEST_ID + 2).is_none());
}

#[test]
fn message_type_codes() {
    let d = Dict::new;
    let s = || "x".to_string();
    let cases: Vec<(Message, u64)> = vec![
        (Message::Hello { realm: s(), details: d() }, 1),
        (Message::Welcome { session_id: 1, details: d() }, 2),
        (Message::Abort { details: d(), reason: s() }, 3),
        (Message::Challenge { auth_method: s(), extra: d() }, 4),
        (Message::Authenticate { signature: s(), extra: d() }, 5),
        (Message::Goodbye { details: d(), reason: s() }, 6),
        (
            Message::Error {
                message_type: 48,
                request_id: 1,
                details: d(),
                uri: s(),
                args: None,
                kwargs: None,
            },
            8,
        ),
        (
            Message::Publish { request_id: 1, options: d(), topic: s(), args: None, kwargs: None },
            16,
        ),
        (Message::Published { request_id: 1, publication_id: 2 }, 17),
        (Message::Subscribe { request_id: 1, options: d(), topic: s() }, 32),
        (Message::Subscribed { request_id: 1, subscription_id: 2 }, 33),
        (Message::Unsubscribe { request_id: 1, subscription_id: 2 }, 34),
        (Message::Unsubscribed { request_id: 1 }, 35),
        (
            Message::Event {
                subscription_id: 1,
                publication_id: 2,
                details: d(),
                args: None,
                kwargs: None,
            },
            36,
        ),
        (
            Message::Call { request_id: 1, options: d(), procedure: s(), args: None, kwargs: None },
            48,
        ),
        (Message::Result { request_id: 1, details: d(), args: None, kwargs: None }, 50),
        (Message::Register { request_id: 1, options: d(), procedure: s() }, 64),
        (Message::Registered { request_id: 1, registration_id: 2 }, 65),
        (Message::Unregister { request_id: 1, registration_id: 2 }, 66),
        (Message::Unregistered { request_id: 1 }, 67),
        (
            Message::Invocation {
                request_id: 1,
                registration_id: 2,
                details: d(),
                args: None,
                kwargs: None,
            },
            68,
        ),
        (Message::Yield { request_id: 1, options: d(), args: None, kwargs: None }, 70),
        (Message::Other { message_type: 49 }, 49),
    ];
    for (msg, code) in cases {
        assert_eq!(msg.message_type(), code);
    }
}

#[test]
fn error_text() {
    let e = Error::new("boom");
    assert_eq!(e.message, "boom");
    assert_eq!(e.kind, ErrorKind::Unspecified);
    assert_eq!(e.to_text(), "Error: boom");
    let e = Error::with_kind(ErrorKind::Join, "refused");
    assert_eq!(e.kind, ErrorKind::Join);
    assert_eq!(e.to_text(), "Error: refused");
}

#[test]
fn session_details_getters() {
    let d = SessionDetails::new(42, "realm1".to_string(), "alice".to_string(), "user".to_string());
    assert_eq!(d.id(), 42);
    assert_eq!(d.realm(), "realm1");
    assert_eq!(d.authid(), "alice");
    assert_eq!(d.auth_role(), "user");
}

#[test]
fn call_request_builders() {
    let r = CallRequest::new("p");
    assert_eq!(r.procedure(), "p");
    assert!(r.args().is_empty());
    assert_eq!(r.kwargs().len(), 0);
    assert_eq!(r.options().len(), 0);
    let r = r
        .with_arg(Value::Integer(1))
        .with_arg(Value::Integer(2))
        .with_kwarg("k", Value::Bool(true))
        .with_option("timeout", Value::Integer(100));
    assert_eq!(r.args(), &vec![Value::Integer(1), Value::Integer(2)]);
    assert_eq!(r.kwargs().get("k"), Some(&Value::Bool(true)));
    assert_eq!(r.options().get("timeout"), Some(&Value::Integer(100)));
    let mut kw = Dict::new();
    kw.insert("z", Value::Null);
    let r = r.with_args(vec![Value::Null]).with_kwargs(kw).with_options(Dict::new());
    assert_eq!(r.args(), &vec![Value::Null]);
    assert_eq!(r.kwargs().get("k"), None);
    assert_eq!(r.kwargs().get("z"), Some(&Value::Null));
    assert_eq!(r.options().len(), 0);
    assert_eq!(r.procedure(), "p");
}

#[test]
fn publish_request_builders() {
    let r = PublishRequest::new("t")
        .with_arg(Value::Str("x".to_string()))
        .with_kwarg("k", Value::Integer(5))
        .with_option("acknowledge", Value::Bool(true));
    assert_eq!(r.topic(), "t");
    assert_eq!(r.args(), &vec![Value::Str("x".to_string())]);
    assert_eq!(r.kwargs().get("k"), Some(&Value::Integer(5)));
    assert_eq!(r.options().get("acknowledge"), Some(&Value::Bool(true)));
    let r = r.with_args(vec![]).with_kwargs(Dict::new()).with_options(Dict::new());
    assert!(r.args().is_empty());
    assert_eq!(r.kwargs().len(), 0);
    assert_eq!(r.options().len(), 0);
}

#[test]
fn yield_constructors() {
    let mut d = Dict::new();
    d.insert("k", Value::Integer(1));
    let mut same = Dict::new();
    same.insert("k", Value::Integer(1));
    let y = Yield::new(vec![Value::Null], d);
    assert_eq!(y, Yield { args: Some(vec![Value::Null]), kwargs: Some(same), error: None });
    assert_eq!(
        Yield::args(vec![Value::Integer(2)]),
        Yield { args: Some(vec![Value::Integer(2)]), kwargs: None, error: None }
    );
    assert_eq!(
        Yield::arg(Value::Integer(3)),
        Yield { args: Some(vec![Value::Integer(3)]), kwargs: None, error: None }
    );
    let y = Yield::kwarg("k", Value::Integer(1));
    assert_eq!(y.kwargs.unwrap().get("k"), Some(&Value::Integer(1)));
    let y = Yield::kwargs(Dict::new());
    assert_eq!(y, Yield { args: None, kwargs: Some(Dict::new()), error: None });
    let y = Yield::error("wamp.error.x");
    assert_eq!(y.error.unwrap().uri, "wamp.error.x");
}
