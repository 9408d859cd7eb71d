use rsh::escape::Escape;
use rsh::handler::RemoteAction;
use rsh::handler::RemoteMessage;
use rsh::handler::continues_reading;
use rsh::handler::frame_bytes;
use rsh::handler::frame_message;
use rsh::handler::handle_remote;

fn buf(bytes: &[u8]) -> [u8; 4096] {
    let mut b = [0u8; 4096];
    b[..bytes.len()].copy_from_slice(bytes);
    b
}

#[test]
fn ordinary_data_is_framed_whole_and_encoded() {
    let b = buf(b"hi");
    let bytes = frame_bytes(Escape::NoEscape, '~', &b, 0, 2);
    assert_eq!(bytes, b"hi".to_vec());
    let m = frame_message(Escape::NoEscape, '~', &b, 0, 2);
    assert_eq!(m, "aGk=");
}

#[test]
fn control_events_withhold_their_bytes() {
    // "a\r~." scanned: Itself stops after the escape byte (position 3),
    // so the frame forwards only "a\r"; Terminate stops after the dot
    // (position 4) and forwards nothing.
    let b = buf(b"a\r~.");
    let bytes = frame_bytes(Escape::Itself, '~', &b, 0, 3);
    assert_eq!(bytes, b"a\r".to_vec());
    let bytes = frame_bytes(Escape::Terminate, '~', &b, 3, 4);
    assert_eq!(bytes, b"".to_vec());
}

#[test]
fn invalid_sequence_reinserts_the_escape_byte() {
    // "\r~x": the scanner withheld '~', classified 'x' as invalid; both
    // must reach the remote side, escape byte first.
    let b = buf(b"\r~x");
    let bytes = frame_bytes(Escape::Invalid, '~', &b, 2, 3);
    assert_eq!(bytes, b"~x".to_vec());
}

#[test]
fn literal_keeps_the_doubled_escape() {
    // "\r~~": Literal delivers the second '~' as data.
    let b = buf(b"\r~~");
    let bytes = frame_bytes(Escape::Literal, '~', &b, 2, 3);
    assert_eq!(bytes, b"~".to_vec());
}

#[test]
fn only_terminate_ends_the_reader() {
    assert!(!continues_reading(Escape::Terminate));
    assert!(continues_reading(Escape::NoEscape));
    assert!(continues_reading(Escape::Itself));
    assert!(continues_reading(Escape::Help));
}

#[test]
fn remote_text_is_decoded_to_output() {
    match handle_remote(RemoteMessage::Text("aGk=".to_string())) {
        RemoteAction::Output(v) => assert_eq!(v, b"hi".to_vec()),
        _ => panic!("text must decode to output"),
    }
}

#[test]
fn malformed_text_is_a_transport_failure() {
    assert!(matches!(
        handle_remote(RemoteMessage::Text("!!!".to_string())),
        RemoteAction::Malformed
    ));
    assert!(matches!(
        handle_remote(RemoteMessage::Binary(vec![1, 2])),
        RemoteAction::Malformed
    ));
}

#[test]
fn ping_is_answered_close_ends() {
    match handle_remote(RemoteMessage::Ping(vec![7, 8])) {
        RemoteAction::Pong(p) => assert_eq!(p, vec![7, 8]),
        _ => panic!("ping must be answered with pong"),
    }
    assert!(matches!(handle_remote(RemoteMessage::Close), RemoteAction::Close));
    assert!(matches!(
        handle_remote(RemoteMessage::Pong(vec![])),
        RemoteAction::Ignore
    ));
}
