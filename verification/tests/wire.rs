use termchat::session::{handshake_name, receiver_step, wire_bytes, Received};
use termchat::text::{find_space, trim_nul_padding, trim_spaces, format_line};
use termchat::SessionError;

#[test]
fn handshake_round_trip() {
    // Side A connects with "Alice", side B accepts with "Bob": each writes
    // its name's bytes, each reads them into a zero-filled 64-byte buffer,
    // and each reports the other's name.
    let mut to_b = [0u8; 64];
    let alice = wire_bytes("Alice");
    to_b[..alice.len()].copy_from_slice(&alice);
    let mut to_a = [0u8; 64];
    let bob = wire_bytes("Bob");
    to_a[..bob.len()].copy_from_slice(&bob);

    assert_eq!(handshake_name(&to_b, alice.len()).unwrap(), "Alice");
    assert_eq!(handshake_name(&to_a, bob.len()).unwrap(), "Bob");
}

#[test]
fn handshake_rejects_empty_read() {
    let buf = [0u8; 64];
    match handshake_name(&buf, 0) {
        Err(SessionError::EmptyHandshake) => {}
        _ => panic!("expected an empty-handshake error"),
    }
}

#[test]
fn handshake_rejects_bad_encoding() {
    let mut buf = [0u8; 64];
    buf[0] = 0xFF;
    match handshake_name(&buf, 1) {
        Err(SessionError::MalformedText) => {}
        _ => panic!("expected a malformed-text error"),
    }
}

#[test]
fn send_receive_round_trip() {
    // a text of at most 64 bytes arrives in one read: the bytes written are
    // the bytes handed to the receiver, which reproduces the text verbatim
    let text = "tea at five? ok!";
    let bytes = wire_bytes(text);
    assert!(bytes.len() <= 64);
    match receiver_step("Bob", &bytes) {
        Received::Line(l) => assert_eq!(l, "Bob: tea at five? ok!"),
        _ => panic!("expected a line"),
    }
}

#[test]
fn receiver_closes_on_empty_read() {
    // a zero-length read is the "peer closed" signal
    assert!(matches!(receiver_step("Bob", &[]), Received::Closed));
}

#[test]
fn receiver_rejects_bad_encoding() {
    assert!(matches!(
        receiver_step("Bob", &[0x68, 0xC0, 0x21]),
        Received::Malformed
    ));
}

#[test]
fn non_ascii_text_survives() {
    let text = "héllo ← κόσμε";
    let bytes = wire_bytes(text);
    match receiver_step("Bób", &bytes) {
        Received::Line(l) => assert_eq!(l, "Bób: héllo ← κόσμε"),
        _ => panic!("expected a line"),
    }
}

#[test]
fn trimming_whitespace() {
    assert_eq!(trim_spaces("  hi there \t\n"), "hi there");
    assert_eq!(trim_spaces("hi"), "hi");
    assert_eq!(trim_spaces("   "), "");
    assert_eq!(trim_spaces(""), "");
    assert_eq!(trim_spaces(" a "), "a");
}

#[test]
fn stripping_nul_padding() {
    assert_eq!(trim_nul_padding("Bob\0\0\0"), "Bob");
    assert_eq!(trim_nul_padding("Bob"), "Bob");
    assert_eq!(trim_nul_padding("\0\0"), "");
    assert_eq!(trim_nul_padding(""), "");
    // only trailing NULs go
    assert_eq!(trim_nul_padding("B\0b"), "B\0b");
}

#[test]
fn line_formatting_and_splitting() {
    let line = format_line("Bob", "hello");
    assert_eq!(line, "Bob: hello");
    assert_eq!(find_space(&line), Some(4));
    assert_eq!(find_space("nospace"), None);
    assert_eq!(find_space(""), None);
}
