use hyper_connect::crypto::message_crypto::{
    base64_deserialize, base64_serialize, decrypt_message, encrypt_message,
    EncryptedMessagePayload,
};
use hyper_connect::crypto::session::{Keypair, Session};
use hyper_connect::crypto::{CryptoError, MAX_MESSAGE_SIZE, STREAM_BUFFER_SIZE};

fn create_test_session() -> (Session, Session) {
    let kp1 = Keypair::generate();
    let kp2 = Keypair::generate();
    let public1 = kp1.public_bytes();
    let public2 = kp2.public_bytes();
    let session1 = Session::from_ecdh(kp1.secret, &public2).unwrap();
    let session2 = Session::from_ecdh(kp2.secret, &public1).unwrap();
    (session1, session2)
}

#[test]
fn test_encrypt_decrypt_message() {
    let (session1, session2) = create_test_session();

    let message = r#"{"type":"TEXT_MESSAGE","content":"Hello!"}"#;
    let encrypted = encrypt_message(&session1, message).unwrap();

    assert_eq!(encrypted.msg_type, "ENCRYPTED_MESSAGE");
    assert_eq!(encrypted.iv.len(), 12);
    assert_eq!(encrypted.tag.len(), 16);

    let decrypted = decrypt_message(&session2, &encrypted).unwrap();
    assert_eq!(message, decrypted);
}

#[test]
fn test_tampering_detection() {
    let (session1, session2) = create_test_session();

    let message = "Secret message";
    let mut encrypted = encrypt_message(&session1, message).unwrap();

    // Tamper with payload
    if !encrypted.payload.is_empty() {
        encrypted.payload[0] ^= 0x01;
    }

    // Decryption should fail
    let result = decrypt_message(&session2, &encrypted);
    assert!(result.is_err());
}

#[test]
fn test_empty_message() {
    let (session1, session2) = create_test_session();

    let message = "";
    let encrypted = encrypt_message(&session1, message).unwrap();
    let decrypted = decrypt_message(&session2, &encrypted).unwrap();

    assert_eq!(message, decrypted);
}

#[test]
fn test_unicode_message() {
    let (session1, session2) = create_test_session();

    let message = "Hello ‰∏ñÁïå üåç ŸÖÿ±ÿ≠ÿ®ÿß";
    let encrypted = encrypt_message(&session1, message).unwrap();
    let decrypted = decrypt_message(&session2, &encrypted).unwrap();

    assert_eq!(message, decrypted);
}

#[test]
fn encrypted_text_message_scenario() {
    let (session_alice, session_bob) = create_test_session();
    let text = "{\"type\":\"TEXT_MESSAGE\",\"content\":\"Hi\"}";
    let payload = encrypt_message(&session_alice, text).unwrap();
    assert_eq!(payload.iv.len(), 12);
    assert_eq!(payload.tag.len(), 16);
    assert_eq!(payload.payload.len(), text.len());
    assert_eq!(decrypt_message(&session_bob, &payload).unwrap().as_bytes(), text.as_bytes());

    // flipping the low bit of the first ciphertext byte
    let mut tampered = payload.clone();
    tampered.payload[0] ^= 0x01;
    assert_eq!(decrypt_message(&session_bob, &tampered).unwrap_err(), CryptoError::AuthFailure);
}

#[test]
fn message_size_limit() {
    let (session1, session2) = create_test_session();
    assert_eq!(MAX_MESSAGE_SIZE, 1024 * 1024);
    assert_eq!(STREAM_BUFFER_SIZE, 256 * 1024);

    let at_limit = "x".repeat(MAX_MESSAGE_SIZE);
    let encrypted = encrypt_message(&session1, &at_limit).unwrap();
    assert_eq!(decrypt_message(&session2, &encrypted).unwrap(), at_limit);

    let over = "x".repeat(MAX_MESSAGE_SIZE + 1);
    assert_eq!(encrypt_message(&session1, &over).unwrap_err(), CryptoError::MessageTooLarge);
}

#[test]
fn envelope_and_encrypted_message_convert_into_each_other() {
    let (session1, _) = create_test_session();
    let encrypted = session1.encrypt_message(b"abc").unwrap();
    let envelope = EncryptedMessagePayload::from_encrypted(encrypted.clone());
    assert_eq!(envelope.msg_type, "ENCRYPTED_MESSAGE");
    assert_eq!(envelope.iv, encrypted.nonce);
    assert_eq!(envelope.tag, encrypted.tag);
    assert_eq!(envelope.payload, encrypted.payload);
    let back = envelope.to_encrypted();
    assert_eq!(back.nonce, encrypted.nonce);
    assert_eq!(back.tag, encrypted.tag);
    assert_eq!(back.payload, encrypted.payload);
}

#[test]
fn envelope_json_is_what_a_json_reader_expects() {
    let envelope = EncryptedMessagePayload {
        msg_type: "ENCRYPTED_MESSAGE".to_string(),
        iv: [1u8; 12],
        tag: [2u8; 16],
        payload: b"hello".to_vec(),
    };
    let json = envelope.to_json();
    assert_eq!(
        json,
        "{\"type\":\"ENCRYPTED_MESSAGE\",\"iv\":\"AQEBAQEBAQEBAQEB\",\"tag\":\"AgICAgICAgICAgICAgICAg==\",\"payload\":\"aGVsbG8=\"}"
    );
    let value: serde_json::Value = serde_json::from_str(&json).unwrap();
    assert_eq!(value["type"].as_str(), Some("ENCRYPTED_MESSAGE"));
    assert_eq!(value["payload"].as_str(), Some("aGVsbG8="));

    let back = EncryptedMessagePayload::from_json(&json).unwrap();
    assert_eq!(back.msg_type, "ENCRYPTED_MESSAGE");
    assert_eq!(back.iv, envelope.iv);
    assert_eq!(back.tag, envelope.tag);
    assert_eq!(back.payload, envelope.payload);
}

#[test]
fn malformed_envelopes_are_one_uniform_failure() {
    let good_iv = "AQEBAQEBAQEBAQEB";
    let good_tag = "AgICAgICAgICAgICAgICAg==";
    let cases = [
        "not json".to_string(),
        "{}".to_string(),
        format!("{{\"type\":\"ENCRYPTED_MESSAGE\",\"iv\":\"{}\",\"tag\":\"{}\"}}", good_iv, good_tag),
        format!(
            "{{\"type\":\"ENCRYPTED_MESSAGE\",\"iv\":\"{}\",\"tag\":\"{}\",\"payload\":7}}",
            good_iv, good_tag
        ),
        format!(
            "{{\"type\":\"ENCRYPTED_MESSAGE\",\"iv\":\"!!!\",\"tag\":\"{}\",\"payload\":\"\"}}",
            good_tag
        ),
        // nonce of 11 bytes
        format!(
            "{{\"type\":\"ENCRYPTED_MESSAGE\",\"iv\":\"AQEBAQEBAQEBAQE=\",\"tag\":\"{}\",\"payload\":\"\"}}",
            good_tag
        ),
        // tag of 12 bytes
        format!(
            "{{\"type\":\"ENCRYPTED_MESSAGE\",\"iv\":\"{}\",\"tag\":\"{}\",\"payload\":\"\"}}",
            good_iv, good_iv
        ),
        format!(
            "{{\"iv\":\"{}\",\"tag\":\"{}\",\"payload\":\"\"}}",
            good_iv, good_tag
        ),
    ];
    for text in cases {
        assert_eq!(
            EncryptedMessagePayload::from_json(&text).unwrap_err(),
            CryptoError::AuthFailure
        );
    }
    assert!(EncryptedMessagePayload::from_json(&format!(
        "{{\"type\":\"ENCRYPTED_MESSAGE\",\"iv\":\"{}\",\"tag\":\"{}\",\"payload\":\"\"}}",
        good_iv, good_tag
    ))
    .is_ok());
    assert_eq!(
        EncryptedMessagePayload::from_base64_fields(good_iv, "AgI=", "").unwrap_err(),
        CryptoError::AuthFailure
    );
}

#[test]
fn base64_fields() {
    assert_eq!(base64_serialize(b"hello"), "aGVsbG8=");
    assert_eq!(base64_serialize(&[]), "");
    assert_eq!(base64_deserialize::<5>("aGVsbG8="), Some(*b"hello"));
    assert_eq!(base64_deserialize::<4>("aGVsbG8="), None);
    assert_eq!(base64_deserialize::<5>("aGVsbG8"), None);
    assert_eq!(base64_deserialize::<32>(&base64_serialize(&[0x42; 32])), Some([0x42u8; 32]));
}

#[test]
fn plaintext_that_is_not_text_is_an_authentication_failure() {
    let (session1, session2) = create_test_session();
    let encrypted = session1.encrypt_message(&[0xFF, 0xFE, 0x00]).unwrap();
    let envelope = EncryptedMessagePayload::from_encrypted(encrypted);
    assert_eq!(decrypt_message(&session2, &envelope).unwrap_err(), CryptoError::AuthFailure);
}

#[test]
fn error_messages_name_no_cryptographic_detail() {
    assert_eq!(CryptoError::HandshakeRejected.message(), "Handshake rejected by peer");
    assert_eq!(
        CryptoError::NoPendingHandshake.message(),
        "No pending handshake for this peer"
    );
    assert_eq!(
        CryptoError::AuthFailure.message(),
        "Decryption failed - authentication tag mismatch"
    );
    assert_eq!(CryptoError::NoSession.message(), "No session for peer");
    assert_eq!(CryptoError::MessageTooLarge.message(), "Message too large");
    assert_eq!(CryptoError::BadKeyLength.message(), "Invalid key length");
    assert_eq!(CryptoError::KeyDerivationFailed.message(), "Failed to derive session keys");
}
