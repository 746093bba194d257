use backend::handlers::websocket::{socket_step, ws_authorized, SocketAction, SocketEvent, WsParams};
use backend::utils::crypto::{decrypt, encrypt, encrypt_with_nonce, CryptoError};
use aes_gcm::aead::{Aead, KeyInit};
use base64::Engine;

const KEY: &str = "0123456789abcdef0123456789abcdef";

#[test]
fn encryption_round_trips() {
    for data in ["", "secret", "ünïcødé ✓", "a much longer text with spaces and symbols !@#$%^&*()"] {
        let enc = encrypt(KEY, data).unwrap();
        assert_eq!(decrypt(KEY, &enc).unwrap(), data);
    }
}

#[test]
fn encryption_with_fixed_nonce_is_deterministic_and_prefixes_nonce() {
    let nonce = [9u8; 12];
    let a = encrypt_with_nonce(KEY, nonce, "x").unwrap();
    let b = encrypt_with_nonce(KEY, nonce, "x").unwrap();
    assert_eq!(a, b);
    let raw = base64::engine::general_purpose::STANDARD.decode(&a).unwrap();
    assert_eq!(&raw[..12], &nonce);
    assert_eq!(raw.len(), 12 + 1 + 16);
}

#[test]
fn encryption_needs_a_32_byte_key() {
    assert_eq!(encrypt("short", "x"), Err(CryptoError::KeyLength));
    assert_eq!(CryptoError::KeyLength.message(), "Encryption key must be exactly 32 bytes");
}

#[test]
fn decryption_errors() {
    let bad = "not base64!";
    let expected = base64::engine::general_purpose::STANDARD.decode(bad).unwrap_err().to_string();
    assert_eq!(decrypt(KEY, bad), Err(CryptoError::Base64(expected.clone())));
    assert_eq!(CryptoError::Base64(expected.clone()).message(), expected);
    assert_eq!(decrypt(KEY, "AAAA"), Err(CryptoError::TooShort));
    let enc = encrypt(KEY, "secret").unwrap();
    assert_eq!(decrypt("short", &enc), Err(CryptoError::InvalidKey));
    assert_eq!(CryptoError::InvalidKey.message(), "Invalid Length");
    assert_eq!(decrypt("fedcba9876543210fedcba9876543210", &enc), Err(CryptoError::Decryption));
    let mut raw = base64::engine::general_purpose::STANDARD.decode(&enc).unwrap();
    let last = raw.len() - 1;
    raw[last] ^= 1;
    let tampered = base64::engine::general_purpose::STANDARD.encode(raw);
    assert_eq!(decrypt(KEY, &tampered), Err(CryptoError::Decryption));
    assert_eq!(CryptoError::TooShort.message(), "Invalid encrypted data: too short");
}

#[test]
fn decryption_of_bytes_that_are_not_utf8() {
    let nonce = [7u8; 12];
    let cipher = aes_gcm::Aes256Gcm::new_from_slice(KEY.as_bytes()).unwrap();
    let sealed = cipher.encrypt(aes_gcm::Nonce::from_slice(&nonce), &[0xffu8, 0x41][..]).unwrap();
    let mut combined = nonce.to_vec();
    combined.extend_from_slice(&sealed);
    let text = base64::engine::general_purpose::STANDARD.encode(combined);
    let expected = String::from_utf8(vec![0xffu8, 0x41]).unwrap_err().to_string();
    assert_eq!(expected, "invalid utf-8 sequence of 1 bytes from index 0");
    assert_eq!(decrypt(KEY, &text), Err(CryptoError::Utf8(expected.clone())));
    assert_eq!(CryptoError::Utf8(expected.clone()).message(), expected);
}

#[test]
fn encryption_error_messages() {
    assert_eq!(CryptoError::MissingKey.message(), "ENCRYPTION_KEY must be set in .env (32 bytes)");
    assert_eq!(CryptoError::RandomSource.message(), "Random number generator failed");
    assert_eq!(CryptoError::Encryption.message(), "Encryption error: Error");
    assert_eq!(CryptoError::Decryption.message(), "Decryption error: Error");
}

#[test]
fn encrypted_text_is_base64_of_nonce_and_sealed_data() {
    let nonce = [3u8; 12];
    for data in ["", "a", "ab", "abc", "abcd"] {
        let text = encrypt_with_nonce(KEY, nonce, data).unwrap();
        let raw = base64::engine::general_purpose::STANDARD.decode(&text).unwrap();
        assert_eq!(raw.len(), 12 + data.len() + 16);
        assert_eq!(text.len(), (raw.len() + 2) / 3 * 4);
        assert_eq!(&raw[..12], &nonce);
    }
    let a = encrypt_with_nonce(KEY, nonce, "a").unwrap();
    let b = encrypt_with_nonce(KEY, nonce, "b").unwrap();
    assert_ne!(a, b);
    let ab = encrypt_with_nonce(KEY, [4u8; 12], "a").unwrap();
    assert_ne!(a, ab);
}

#[test]
fn socket_needs_the_api_key() {
    assert!(ws_authorized(&WsParams { token: Some("k".to_string()) }, "k"));
    assert!(!ws_authorized(&WsParams { token: Some("j".to_string()) }, "k"));
    assert!(!ws_authorized(&WsParams { token: None }, "k"));
}

#[test]
fn socket_reactions() {
    assert!(matches!(socket_step(SocketEvent::Broadcast("m".to_string())), SocketAction::SendText(ref t) if t == "m"));
    assert!(matches!(socket_step(SocketEvent::Text("PING".to_string())), SocketAction::SendText(ref t) if t == "PONG"));
    assert!(matches!(socket_step(SocketEvent::Text("ping".to_string())), SocketAction::Nothing));
    assert!(matches!(socket_step(SocketEvent::Tick { since_last_pong_nanos: 30_000_000_000 }), SocketAction::SendPing));
    assert!(matches!(socket_step(SocketEvent::Tick { since_last_pong_nanos: 30_000_000_001 }), SocketAction::Disconnect));
    assert!(matches!(socket_step(SocketEvent::Pong), SocketAction::RecordPong));
    assert!(matches!(socket_step(SocketEvent::Binary), SocketAction::Nothing));
    assert!(matches!(socket_step(SocketEvent::Ping), SocketAction::Nothing));
    assert!(matches!(socket_step(SocketEvent::Close), SocketAction::Disconnect));
    assert!(matches!(socket_step(SocketEvent::ReadError), SocketAction::Disconnect));
    assert!(matches!(socket_step(SocketEvent::StreamEnded), SocketAction::Disconnect));
}
