use devserver::websocket::{
    accept_key, handle_websocket_handshake, handshake_is_well_formed, parse_websocket_handshake,
    send_websocket_message, RELOAD_PORT,
};

const RFC_REQUEST: &str = "GET /chat HTTP/1.1\r\nHost: server.example.com\r\nUpgrade: websocket\r\nConnection: Upgrade\r\nSec-WebSocket-Key: dGhlIHNhbXBsZSBub25jZQ==\r\nSec-WebSocket-Version: 13\r\n\r\n";

fn expected_response(accept: &str) -> String {
    format!(
        "HTTP/1.1 101 Switching Protocols\r\nUpgrade: websocket\r\nConnection: Upgrade\r\nSec-WebSocket-Accept: {}\r\n\r\n",
        accept
    )
}

#[test]
fn accept_key_matches_rfc_example() {
    let key: Vec<char> = "dGhlIHNhbXBsZSBub25jZQ==".chars().collect();
    let accept = accept_key(&key);
    assert_eq!(accept, "s3pPLMBiTxaQ9kYGzzhZRbK+xOo=");
    assert_eq!(accept.len(), 28);
}

#[test]
fn accept_key_of_empty_key() {
    // SHA-1 of the GUID alone, in Base64.
    let accept = accept_key(&[]);
    assert_eq!(accept.len(), 28);
    assert_ne!(accept, "258EAFA5-E914-47DA-95CA-C5AB0DC85B11");
}

#[test]
fn handshake_response_for_rfc_request() {
    let bytes = RFC_REQUEST.as_bytes();
    assert!(handshake_is_well_formed(bytes));
    let response = parse_websocket_handshake(bytes);
    assert_eq!(response, expected_response("s3pPLMBiTxaQ9kYGzzhZRbK+xOo="));
    let raw = handle_websocket_handshake(bytes);
    assert_eq!(raw, response.into_bytes());
}

#[test]
fn key_is_trimmed_and_last_key_line_wins() {
    let request = "GET / HTTP/1.1\r\nSec-WebSocket-Key: ignored\r\nSec-WebSocket-Key:\t dGhlIHNhbXBsZSBub25jZQ== \r\n\r\n";
    assert!(handshake_is_well_formed(request.as_bytes()));
    let response = parse_websocket_handshake(request.as_bytes());
    assert_eq!(response, expected_response("s3pPLMBiTxaQ9kYGzzhZRbK+xOo="));
}

#[test]
fn key_header_name_is_case_sensitive() {
    let request = "GET / HTTP/1.1\r\nsec-websocket-key: dGhlIHNhbXBsZSBub25jZQ==\r\n\r\n";
    let response = parse_websocket_handshake(request.as_bytes());
    let empty: Vec<char> = Vec::new();
    assert_eq!(response, expected_response(&accept_key(&empty)));
}

#[test]
fn malformed_handshakes_are_refused() {
    assert!(!handshake_is_well_formed(b"GET / HTTP/1.1\r\nSec-WebSocket-Key\r\n\r\n"));
    assert!(!handshake_is_well_formed(&[0xff, 0xfe, 0x0d, 0x0a]));
    assert!(handshake_is_well_formed(b"GET / HTTP/1.1\r\nSec-WebSocket-Key-Other\r\n\r\n"));
    assert!(handshake_is_well_formed(b""));
}

#[test]
fn reload_frame_is_a_text_frame() {
    let frame = send_websocket_message();
    assert_eq!(frame, vec![129u8, 6, b'r', b'e', b'l', b'o', b'a', b'd']);
    assert_eq!(frame[0], 0x81);
    assert_eq!(frame[1] as usize, frame.len() - 2);
}

#[test]
fn reload_port() {
    assert_eq!(RELOAD_PORT, 8129);
}

#[test]
fn accept_values_are_base64_of_a_digest() {
    for key in ["", "abc", "dGhlIHNhbXBsZSBub25jZQ==", " x "] {
        let chars: Vec<char> = key.chars().collect();
        let a = accept_key(&chars);
        assert_eq!(a.len(), 28);
        assert!(a.ends_with('=') && !a[..27].contains('='));
        assert!(a[..27].chars().all(|c| c.is_ascii_alphanumeric() || c == '+' || c == '/'));
    }
}
