use base64::prelude::{Engine, BASE64_STANDARD};
use c8y_mapper_ext::proxy::{
    encode_sec_websocket_key, generate_sec_websocket_key, ConnectError, Websocket,
    WebsocketSocketProxy, KEY_LENGTH,
};

#[test]
fn generated_key_is_base64_encoded_16_byte_sequence() {
    let key = generate_sec_websocket_key();

    let decoded = BASE64_STANDARD.decode(key).unwrap();

    assert_eq!(decoded.len(), 16);
}

#[test]
fn generated_key_is_ascii() {
    let key = generate_sec_websocket_key();

    assert!(key.is_ascii());
}

#[test]
fn generated_keys_are_unique_per_connection() {
    let key_1 = generate_sec_websocket_key();
    let key_2 = generate_sec_websocket_key();

    assert_ne!(key_1, key_2);
}

#[test]
fn key_is_the_base64_of_its_bytes() {
    assert_eq!(KEY_LENGTH, 16);
    assert_eq!(encode_sec_websocket_key(&[0u8; 16]), "AAAAAAAAAAAAAAAAAAAAAA==");
    let bytes: [u8; 16] = [0, 1, 2, 3, 4, 5, 6, 7, 8, 9, 10, 11, 12, 13, 14, 15];
    let key = encode_sec_websocket_key(&bytes);
    assert_eq!(key, "AAECAwQFBgcICQoLDA0ODw==");
    assert_eq!(BASE64_STANDARD.decode(key).unwrap(), bytes);
}

#[test]
fn handshake_headers_are_set_in_order() {
    let headers = Websocket::headers("Bearer token", "AAAAAAAAAAAAAAAAAAAAAA==", "cloud.example");
    let listed: Vec<(&str, &str)> =
        headers.iter().map(|h| (h.name.as_str(), h.value.as_str())).collect();
    assert_eq!(
        listed,
        vec![
            ("Authorization", "Bearer token"),
            ("Sec-WebSocket-Key", "AAAAAAAAAAAAAAAAAAAAAA=="),
            ("Host", "cloud.example"),
            ("Connection", "Upgrade"),
            ("Upgrade", "websocket"),
            ("sec-websocket-version", "13"),
            ("sec-websocket-protocol", "binary"),
        ]
    );
}

#[test]
fn tunnel_needs_both_connections() {
    let both: Result<WebsocketSocketProxy<u8, u16>, ConnectError<&str, &str>> =
        WebsocketSocketProxy::connect(Ok(1), Ok(2));
    let proxy = both.unwrap();
    assert_eq!((proxy.socket, proxy.websocket), (1, 2));
}

#[test]
fn socket_failure_comes_first() {
    let failed: Result<WebsocketSocketProxy<u8, u16>, ConnectError<&str, &str>> =
        WebsocketSocketProxy::connect(Err("refused"), Err("handshake"));
    assert!(matches!(failed, Err(ConnectError::Socket("refused"))));

    let failed: Result<WebsocketSocketProxy<u8, u16>, ConnectError<&str, &str>> =
        WebsocketSocketProxy::connect(Err("refused"), Ok(2));
    assert!(matches!(failed, Err(ConnectError::Socket("refused"))));
}

#[test]
fn websocket_failure_is_handed_back() {
    let failed: Result<WebsocketSocketProxy<u8, u16>, ConnectError<&str, &str>> =
        WebsocketSocketProxy::connect(Ok(1), Err("handshake"));
    assert!(matches!(failed, Err(ConnectError::Websocket("handshake"))));
}
