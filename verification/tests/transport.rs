use xconn::joiner::{join_step, JoinStep};
use xconn::peer::{
    incoming_payload, outgoing_frame, Frame, TRANSPORT_RAW_SOCKET, TRANSPORT_WEB_SOCKET,
};
use xconn::rawsocket::{
    encode_frame, receive_handshake, receive_message_header, send_handshake, send_message_header,
    size_exponent, size_of_exponent, FrameKind, Handshake, MessageHeader, DEFAULT_MAX_MSG_SIZE,
    MAGIC, MAX_PAYLOAD_LENGTH,
};
use xconn::serializer::{
    CBORSerializerSpec, JSONSerializerSpec, MsgPackSerializerSpec, SerializerId, SerializerSpec,
};
use xconn::types::{ErrorKind, SessionDetails};
use xconn::uri::{address_from_parts, has_prefix, socket_address, transport_for, TransportKind};

#[test]
fn serializer_specs() {
    let json = JSONSerializerSpec;
    assert_eq!(json.subprotocol(), "wamp.2.json");
    assert_eq!(json.serializer_id(), SerializerId::Json);
    assert!(!json.is_binary());
    let cbor = CBORSerializerSpec;
    assert_eq!(cbor.subprotocol(), "wamp.2.cbor");
    assert_eq!(cbor.serializer_id(), SerializerId::Cbor);
    assert!(cbor.is_binary());
    let msgpack = MsgPackSerializerSpec;
    assert_eq!(msgpack.subprotocol(), "wamp.2.msgpack");
    assert_eq!(msgpack.serializer_id(), SerializerId::MsgPack);
    assert!(msgpack.is_binary());
}

#[test]
fn serializer_codes() {
    assert_eq!(SerializerId::Json.code(), 1);
    assert_eq!(SerializerId::MsgPack.code(), 2);
    assert_eq!(SerializerId::Cbor.code(), 3);
    assert_eq!(SerializerId::from_code(1), Some(SerializerId::Json));
    assert_eq!(SerializerId::from_code(2), Some(SerializerId::MsgPack));
    assert_eq!(SerializerId::from_code(3), Some(SerializerId::Cbor));
    assert_eq!(SerializerId::from_code(0), None);
    assert_eq!(SerializerId::from_code(4), None);
}

#[test]
fn transport_types() {
    assert_eq!(TRANSPORT_WEB_SOCKET, 1);
    assert_eq!(TRANSPORT_RAW_SOCKET, 2);
}

#[test]
fn header_bytes_are_big_endian() {
    let h = MessageHeader::new(FrameKind::Wamp, 0x010203);
    assert_eq!(h.kind(), FrameKind::Wamp);
    assert_eq!(h.length(), 0x010203);
    assert_eq!(send_message_header(&h).unwrap(), vec![0, 1, 2, 3]);
    let h = MessageHeader::new(FrameKind::Ping, 5);
    assert_eq!(send_message_header(&h).unwrap(), vec![1, 0, 0, 5]);
    let h = MessageHeader::new(FrameKind::Pong, MAX_PAYLOAD_LENGTH);
    assert_eq!(send_message_header(&h).unwrap(), vec![2, 255, 255, 255]);
}

#[test]
fn header_too_long_is_refused() {
    let h = MessageHeader::new(FrameKind::Wamp, MAX_PAYLOAD_LENGTH + 1);
    assert_eq!(send_message_header(&h).unwrap_err().kind, ErrorKind::InvalidRequest);
}

#[test]
fn header_is_read_back() {
    assert_eq!(
        receive_message_header(&[0, 1, 2, 3]).unwrap(),
        MessageHeader { kind: FrameKind::Wamp, length: 66051 }
    );
    assert_eq!(
        receive_message_header(&[2, 0, 0, 0]).unwrap(),
        MessageHeader { kind: FrameKind::Pong, length: 0 }
    );
    assert_eq!(receive_message_header(&[3, 0, 0, 0]).unwrap_err().kind, ErrorKind::Transport);
    assert_eq!(receive_message_header(&[0, 0, 0]).unwrap_err().kind, ErrorKind::Transport);
    assert_eq!(receive_message_header(&[0, 0, 0, 0, 0]).unwrap_err().kind, ErrorKind::Transport);
    for length in [0usize, 1, 255, 256, 65535, 65536, MAX_PAYLOAD_LENGTH] {
        let h = MessageHeader::new(FrameKind::Wamp, length);
        let bytes = send_message_header(&h).unwrap();
        assert_eq!(receive_message_header(&bytes).unwrap(), h);
    }
}

#[test]
fn frame_is_header_then_payload() {
    assert_eq!(encode_frame(vec![9, 8, 7]).unwrap(), vec![0, 0, 0, 3, 9, 8, 7]);
    assert_eq!(encode_frame(vec![]).unwrap(), vec![0, 0, 0, 0]);
    let long = vec![0u8; 300];
    let frame = encode_frame(long).unwrap();
    assert_eq!(&frame[..4], &[0, 0, 1, 44]);
    assert_eq!(frame.len(), 304);
}

#[test]
fn handshake_bytes() {
    assert_eq!(MAGIC, 0x7F);
    assert_eq!(DEFAULT_MAX_MSG_SIZE, 1 << 24);
    let h = Handshake::new(SerializerId::Json, DEFAULT_MAX_MSG_SIZE);
    assert_eq!(send_handshake(&h).unwrap(), vec![0x7F, 0xF1, 0, 0]);
    let h = Handshake::new(SerializerId::Cbor, 512);
    assert_eq!(send_handshake(&h).unwrap(), vec![0x7F, 0x03, 0, 0]);
    let h = Handshake::new(SerializerId::MsgPack, 1024);
    assert_eq!(send_handshake(&h).unwrap(), vec![0x7F, 0x12, 0, 0]);
}

#[test]
fn handshake_size_must_be_a_power_of_two() {
    for size in [0usize, 1, 256, 511, 513, 1000, (1 << 24) + 1, 1 << 25] {
        let h = Handshake::new(SerializerId::Json, size);
        assert_eq!(send_handshake(&h).unwrap_err().kind, ErrorKind::InvalidRequest);
        assert_eq!(size_exponent(size), None);
    }
    assert_eq!(size_exponent(512), Some(9));
    assert_eq!(size_exponent(1 << 16), Some(16));
    assert_eq!(size_exponent(1 << 24), Some(24));
    assert_eq!(size_of_exponent(9), 512);
    assert_eq!(size_of_exponent(24), 1 << 24);
}

#[test]
fn handshake_is_read_back() {
    assert_eq!(
        receive_handshake(&[0x7F, 0xF1, 0, 0]).unwrap(),
        Handshake { serializer: SerializerId::Json, max_message_size: 1 << 24 }
    );
    assert_eq!(
        receive_handshake(&[0x7F, 0x73, 0, 0]).unwrap(),
        Handshake { serializer: SerializerId::Cbor, max_message_size: 1 << 16 }
    );
    for bad in [
        vec![0x7E, 0xF1, 0, 0],
        vec![0x7F, 0xF1, 1, 0],
        vec![0x7F, 0xF1, 0, 1],
        vec![0x7F, 0x10, 0, 0],
        vec![0x7F, 0xF4, 0, 0],
        vec![0x7F, 0xF1, 0],
        vec![],
    ] {
        assert_eq!(receive_handshake(&bad).unwrap_err().kind, ErrorKind::Transport);
    }
    for e in 9..=24u8 {
        for serializer in [SerializerId::Json, SerializerId::MsgPack, SerializerId::Cbor] {
            let h = Handshake::new(serializer, size_of_exponent(e));
            assert_eq!(receive_handshake(&send_handshake(&h).unwrap()).unwrap(), h);
        }
    }
}

#[test]
fn uri_schemes() {
    assert_eq!(transport_for("ws://localhost:8080/ws").unwrap(), TransportKind::WebSocket);
    assert_eq!(transport_for("wss://example.com/ws").unwrap(), TransportKind::WebSocket);
    assert_eq!(transport_for("rs://localhost:8080").unwrap(), TransportKind::RawSocket);
    assert_eq!(transport_for("rss://localhost:8080").unwrap(), TransportKind::RawSocket);
    assert_eq!(transport_for("tcp://localhost:8080").unwrap(), TransportKind::RawSocket);
    assert_eq!(transport_for("tcps://localhost:8080").unwrap(), TransportKind::RawSocket);
    for bad in ["http://localhost", "ws:/localhost", "", "ws", "xws://h", "WS://h"] {
        let e = transport_for(bad).unwrap_err();
        assert_eq!(e.kind, ErrorKind::InvalidRequest);
        assert_eq!(e.message, "Invalid URI scheme");
    }
}

#[test]
fn prefixes() {
    assert!(has_prefix("ws://x", "ws://"));
    assert!(has_prefix("abc", ""));
    assert!(has_prefix("abc", "abc"));
    assert!(!has_prefix("ab", "abc"));
    assert!(!has_prefix("abd", "abc"));
    assert!(has_prefix("\u{e9}t\u{e9}", "\u{e9}t"));
    assert!(!has_prefix("etc", "\u{e9}"));
}

#[test]
fn socket_address_from_uri() {
    assert_eq!(
        socket_address("ws://localhost:8080/ws").unwrap(),
        ("localhost".to_string(), 8080)
    );
    assert_eq!(socket_address("ws://example.com/ws").unwrap(), ("example.com".to_string(), 80));
    assert_eq!(socket_address("wss://example.com/").unwrap(), ("example.com".to_string(), 443));
    assert_eq!(socket_address("rs://10.0.0.1:9000").unwrap(), ("10.0.0.1".to_string(), 9000));
    assert_eq!(socket_address("rs://localhost").unwrap_err().kind, ErrorKind::InvalidRequest);
    assert_eq!(socket_address("not a uri").unwrap_err().kind, ErrorKind::InvalidRequest);
    assert_eq!(socket_address("mailto:a@b.c").unwrap_err().kind, ErrorKind::InvalidRequest);
}

#[test]
fn address_parts() {
    assert_eq!(
        address_from_parts(true, Some("h".to_string()), Some(1)).unwrap(),
        ("h".to_string(), 1)
    );
    assert_eq!(
        address_from_parts(false, Some("h".to_string()), Some(1)).unwrap_err().message,
        "Invalid URI"
    );
    assert_eq!(address_from_parts(true, None, Some(1)).unwrap_err().message, "Missing host in URI");
    assert_eq!(
        address_from_parts(true, Some("h".to_string()), None).unwrap_err().message,
        "Missing or invalid port"
    );
}

#[test]
fn websocket_frames() {
    assert_eq!(outgoing_frame(vec![1, 2, 255], true).unwrap(), Frame::Binary(vec![1, 2, 255]));
    assert_eq!(
        outgoing_frame(b"[1,\"r\"]".to_vec(), false).unwrap(),
        Frame::Text("[1,\"r\"]".to_string())
    );
    assert_eq!(
        outgoing_frame(vec![0xC3, 0xA9], false).unwrap(),
        Frame::Text("\u{e9}".to_string())
    );
    let e = outgoing_frame(vec![0xFF, 0xFE], false).unwrap_err();
    assert_eq!(e.kind, ErrorKind::Transport);
    assert_eq!(incoming_payload(Frame::Binary(vec![4, 5])), vec![4, 5]);
    assert_eq!(incoming_payload(Frame::Text("\u{e9}".to_string())), vec![0xC3, 0xA9]);
}

#[test]
fn join_steps() {
    let details =
        || SessionDetails::new(1, "realm1".to_string(), "a".to_string(), "r".to_string());
    match join_step(Ok(Some(vec![1, 2])), None) {
        JoinStep::Send(bytes) => assert_eq!(bytes, vec![1, 2]),
        other => panic!("unexpected step {:?}", other),
    }
    match join_step(Ok(Some(vec![3])), Some(details())) {
        JoinStep::Send(bytes) => assert_eq!(bytes, vec![3]),
        other => panic!("unexpected step {:?}", other),
    }
    match join_step(Ok(None), Some(details())) {
        JoinStep::Joined(d) => {
            assert_eq!(d.id(), 1);
            assert_eq!(d.realm(), "realm1");
        }
        other => panic!("unexpected step {:?}", other),
    }
    assert!(matches!(join_step(Ok(None), None), JoinStep::Wait));
    match join_step(Err("no such realm".to_string()), None) {
        JoinStep::Fail(e) => {
            assert_eq!(e.kind, ErrorKind::Join);
            assert_eq!(e.message, "failed to join: no such realm");
        }
        other => panic!("unexpected step {:?}", other),
    }
}
