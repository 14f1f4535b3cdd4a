use tunnel_connector::error::SessionError;
use tunnel_connector::session::{handshake, local_chunk, remote_step, Frame, Incoming, RemoteStep};

fn text(s: &str) -> Incoming {
    Incoming::Message(Frame::Text(s.to_string()))
}

#[test]
fn ready_text_completes_the_handshake() {
    assert_eq!(handshake(&text("{\"type\":\"ready\"}")), Ok(()));
    assert_eq!(handshake(&text("{\"type\":\"ready\",\"tunnelId\":9}")), Ok(()));
}

#[test]
fn other_json_type_fails_the_handshake() {
    let t = "{\"type\":\"pong\"}";
    assert_eq!(handshake(&text(t)), Err(SessionError::UnexpectedHandshakeMessage(t.to_string())));
    let t = "{\"kind\":\"ready\"}";
    assert_eq!(handshake(&text(t)), Err(SessionError::UnexpectedHandshakeMessage(t.to_string())));
    let t = "{\"type\":\"Ready\"}";
    assert_eq!(handshake(&text(t)), Err(SessionError::UnexpectedHandshakeMessage(t.to_string())));
}

#[test]
fn non_json_text_fails_the_handshake() {
    assert_eq!(
        handshake(&text("hello")),
        Err(SessionError::UnexpectedHandshakeMessage("hello".to_string()))
    );
    assert_eq!(
        handshake(&text("ready")),
        Err(SessionError::UnexpectedHandshakeMessage("ready".to_string()))
    );
}

#[test]
fn close_before_ready_ends_the_session() {
    assert_eq!(
        handshake(&Incoming::Message(Frame::Close(Some("going away".to_string())))),
        Err(SessionError::RemoteClosedDuringHandshake("going away".to_string()))
    );
    assert_eq!(
        handshake(&Incoming::Message(Frame::Close(None))),
        Err(SessionError::RemoteClosedDuringHandshake(String::new()))
    );
}

#[test]
fn transport_error_and_end_during_handshake() {
    assert_eq!(
        handshake(&Incoming::Failed("reset".to_string())),
        Err(SessionError::HandshakeTransportError("reset".to_string()))
    );
    assert_eq!(handshake(&Incoming::Ended), Err(SessionError::HandshakeStreamEnded));
}

#[test]
fn binary_or_control_first_frame_does_not_fail() {
    assert_eq!(handshake(&Incoming::Message(Frame::Binary(vec![1, 2]))), Ok(()));
    assert_eq!(handshake(&Incoming::Message(Frame::Control)), Ok(()));
}

#[test]
fn pong_text_is_not_forwarded() {
    assert!(matches!(remote_step(&text("{\"type\":\"pong\"}")), RemoteStep::Skip));
    assert!(matches!(remote_step(&text("{\"type\":\"pong\",\"t\":1}")), RemoteStep::Skip));
}

#[test]
fn other_text_is_forwarded_as_raw_bytes() {
    match remote_step(&text("raw-data")) {
        RemoteStep::Forward(b) => assert_eq!(b, b"raw-data".to_vec()),
        _ => panic!("raw text must be forwarded"),
    }
    match remote_step(&text("{\"type\":\"ready\"}")) {
        RemoteStep::Forward(b) => assert_eq!(b, b"{\"type\":\"ready\"}".to_vec()),
        _ => panic!("a non-pong control text is forwarded"),
    }
    match remote_step(&text("é")) {
        RemoteStep::Forward(b) => assert_eq!(b, vec![0xC3, 0xA9]),
        _ => panic!("text is forwarded as UTF-8"),
    }
}

#[test]
fn binary_is_forwarded_verbatim() {
    match remote_step(&Incoming::Message(Frame::Binary(b"hello".to_vec()))) {
        RemoteStep::Forward(b) => assert_eq!(b, b"hello".to_vec()),
        _ => panic!("binary must be forwarded"),
    }
}

#[test]
fn close_error_or_end_finishes_remote_direction() {
    assert!(matches!(remote_step(&Incoming::Message(Frame::Close(None))), RemoteStep::Finish));
    assert!(matches!(remote_step(&Incoming::Failed("x".to_string())), RemoteStep::Finish));
    assert!(matches!(remote_step(&Incoming::Ended), RemoteStep::Finish));
    assert!(matches!(remote_step(&Incoming::Message(Frame::Control)), RemoteStep::Skip));
}

#[test]
fn local_read_becomes_binary_chunk() {
    let mut buf = [0u8; 8192];
    buf[..5].copy_from_slice(b"hello");
    assert_eq!(local_chunk(&buf, Some(5)), Some(b"hello".to_vec()));
    assert_eq!(local_chunk(&buf, Some(0)), None);
    assert_eq!(local_chunk(&buf, None), None);
    assert_eq!(local_chunk(&buf, Some(8192)).map(|v| v.len()), Some(8192));
}

#[test]
fn echoed_bytes_come_back_unchanged() {
    let buf = b"hello".to_vec();
    let sent = local_chunk(&buf, Some(5)).unwrap();
    match remote_step(&Incoming::Message(Frame::Binary(sent))) {
        RemoteStep::Forward(b) => assert_eq!(b, b"hello".to_vec()),
        _ => panic!("echo must reach the local side"),
    }
}
