use discord_presence_rs::activities::Activity;
use discord_presence_rs::error::Error;
use discord_presence_rs::frame::decode_frame;
use discord_presence_rs::session::{
    build_handshake_payload, build_set_activity_payload, check_handshake_response, Session,
    SessionState,
};

fn ready_session() -> Session {
    let mut session = Session::new("abc".to_string());
    let payload = b"{\"cmd\":\"DISPATCH\",\"evt\":\"READY\"}";
    session.on_handshake_response(payload).unwrap();
    session
}

#[test]
fn handshake_frame_carries_version_and_client_id() {
    let session = Session::new("abc".to_string());
    let frame = session.handshake_frame().unwrap();
    let (opcode, payload, consumed) = decode_frame(&frame).unwrap();
    assert_eq!(opcode, 0);
    assert_eq!(consumed, frame.len());
    assert_eq!(payload, b"{\"v\":1,\"client_id\":\"abc\"}".to_vec());
}

#[test]
fn handshake_payload_escapes_the_client_id() {
    let text = build_handshake_payload("a\"b");
    assert_eq!(text, "{\"v\":1,\"client_id\":\"a\\\"b\"}");
}

#[test]
fn ready_response_is_accepted() {
    let mut session = Session::new("abc".to_string());
    let r = session.on_handshake_response(b"{\"cmd\":\"DISPATCH\",\"evt\":\"READY\"}");
    assert!(r.is_ok());
    assert_eq!(session.state, SessionState::Ready);
}

#[test]
fn error_event_fails_the_handshake() {
    let mut session = Session::new("abc".to_string());
    let r = session.on_handshake_response(b"{\"cmd\":\"DISPATCH\",\"evt\":\"ERROR\"}");
    assert_eq!(r.unwrap_err(), Error::HandshakeFailed);
    assert_eq!(session.state, SessionState::Errored);
}

#[test]
fn malformed_response_is_a_serialization_error() {
    let mut session = Session::new("abc".to_string());
    let r = session.on_handshake_response(b"not json at all");
    assert_eq!(r.unwrap_err(), Error::Serialization);
    assert_eq!(session.state, SessionState::Errored);
}

#[test]
fn missing_fields_fail_the_handshake() {
    assert_eq!(
        check_handshake_response(b"{\"cmd\":\"DISPATCH\"}").unwrap_err(),
        Error::HandshakeFailed,
    );
    assert_eq!(
        check_handshake_response(b"{\"cmd\":\"OTHER\",\"evt\":\"READY\"}").unwrap_err(),
        Error::HandshakeFailed,
    );
}

#[test]
fn update_payload_has_the_command_shape() {
    let mut session = ready_session();
    let activity = Activity::new().set_state("s".to_string());
    let frame = session.set_activity_frame(&activity, 4242).unwrap();
    let (opcode, payload, _) = decode_frame(&frame).unwrap();
    assert_eq!(opcode, 1);
    let value: serde_json::Value = serde_json::from_slice(&payload).unwrap();
    assert_eq!(value["cmd"].as_str(), Some("SET_ACTIVITY"));
    assert_eq!(value["args"]["pid"].as_u64(), Some(4242));
    assert_eq!(value["args"]["activity"]["state"].as_str(), Some("s"));
    let nonce = value["nonce"].as_str().unwrap();
    assert!(!nonce.is_empty());
}

#[test]
fn nonce_differs_between_successive_updates() {
    let mut session = ready_session();
    let activity = Activity::new();
    let first = session.set_activity_frame(&activity, 1).unwrap();
    let second = session.set_activity_frame(&activity, 1).unwrap();
    let (_, p1, _) = decode_frame(&first).unwrap();
    let (_, p2, _) = decode_frame(&second).unwrap();
    let v1: serde_json::Value = serde_json::from_slice(&p1).unwrap();
    let v2: serde_json::Value = serde_json::from_slice(&p2).unwrap();
    let n1 = v1["nonce"].as_str().unwrap();
    let n2 = v2["nonce"].as_str().unwrap();
    assert!(!n1.is_empty());
    assert!(!n2.is_empty());
    assert_ne!(n1, n2);
}

#[test]
fn set_activity_payload_is_deterministic_given_the_nonce() {
    let activity = Activity::new();
    let text = build_set_activity_payload(7, "fixed-nonce", &activity);
    assert_eq!(
        text,
        "{\"cmd\":\"SET_ACTIVITY\",\"args\":{\"pid\":7,\"activity\":{}},\"nonce\":\"fixed-nonce\"}"
    );
}

#[test]
fn close_emits_an_empty_close_frame() {
    let mut session = ready_session();
    let frame = session.close_frame().unwrap();
    assert_eq!(frame, vec![2, 0, 0, 0, 0, 0, 0, 0]);
    assert_eq!(session.state, SessionState::Closed);
}

#[test]
fn nothing_is_accepted_after_close() {
    let mut session = ready_session();
    session.close_frame().unwrap();
    let activity = Activity::new();
    assert_eq!(session.set_activity_frame(&activity, 1).unwrap_err(), Error::Io);
    assert_eq!(session.close_frame().unwrap_err(), Error::Io);
    assert_eq!(session.state, SessionState::Closed);
}

#[test]
fn updates_are_rejected_before_the_handshake() {
    let mut session = Session::new("abc".to_string());
    let activity = Activity::new();
    assert_eq!(session.set_activity_frame(&activity, 1).unwrap_err(), Error::Io);
    assert_eq!(session.close_frame().unwrap_err(), Error::Io);
}

#[test]
fn a_transport_failure_absorbs_the_session() {
    let mut session = ready_session();
    session.record_transport_failure();
    assert_eq!(session.state, SessionState::Errored);
    let activity = Activity::new();
    assert_eq!(session.set_activity_frame(&activity, 1).unwrap_err(), Error::Io);
    assert_eq!(session.close_frame().unwrap_err(), Error::Io);
}

#[test]
fn the_largest_pid_renders_in_full() {
    let activity = Activity::new();
    let text = build_set_activity_payload(u32::MAX, "n", &activity);
    assert_eq!(
        text,
        "{\"cmd\":\"SET_ACTIVITY\",\"args\":{\"pid\":4294967295,\"activity\":{}},\"nonce\":\"n\"}"
    );
}

#[test]
fn nothing_is_accepted_after_an_error() {
    let mut session = Session::new("abc".to_string());
    session.on_handshake_response(b"{}").unwrap_err();
    let activity = Activity::new();
    assert_eq!(session.set_activity_frame(&activity, 1).unwrap_err(), Error::Io);
    assert_eq!(session.close_frame().unwrap_err(), Error::Io);
}
