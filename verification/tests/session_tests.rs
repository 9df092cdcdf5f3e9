use hkdf::Hkdf;
use hyper_connect::crypto::session::{Keypair, Session};
use hyper_connect::crypto::CryptoError;
use sha2::Sha256;

fn hex(s: &str) -> Vec<u8> {
    (0..s.len() / 2).map(|i| u8::from_str_radix(&s[2 * i..2 * i + 2], 16).unwrap()).collect()
}

fn hex32(s: &str) -> [u8; 32] {
    let mut out = [0u8; 32];
    out.copy_from_slice(&hex(s));
    out
}

fn session_pair() -> (Session, Session) {
    let kp1 = Keypair::generate();
    let kp2 = Keypair::generate();
    let public1 = kp1.public_bytes();
    let public2 = kp2.public_bytes();
    let session1 = Session::from_ecdh(kp1.secret, &public2).unwrap();
    let session2 = Session::from_ecdh(kp2.secret, &public1).unwrap();
    (session1, session2)
}

#[test]
fn test_keypair_generation() {
    let kp1 = Keypair::generate();
    let kp2 = Keypair::generate();

    // Public keys should be different
    assert_ne!(kp1.public_bytes(), kp2.public_bytes());
}

#[test]
fn test_ecdh_key_exchange() {
    // Alice and Bob generate keypairs
    let alice_kp = Keypair::generate();
    let bob_kp = Keypair::generate();

    // Store public keys before consuming secrets
    let alice_public = alice_kp.public_bytes();
    let bob_public = bob_kp.public_bytes();

    // They exchange public keys and derive sessions
    let alice_session = Session::from_ecdh(alice_kp.secret, &bob_public).unwrap();
    let bob_session = Session::from_ecdh(bob_kp.secret, &alice_public).unwrap();

    // Both should arrive at the same shared secret
    assert_eq!(alice_session.shared_secret(), bob_session.shared_secret());
}

#[test]
fn test_message_encryption_decryption() {
    let (session1, session2) = session_pair();

    let plaintext = b"Hello, secure world!";
    let encrypted = session1.encrypt_message(plaintext).unwrap();
    let decrypted = session2.decrypt_message(&encrypted).unwrap();

    assert_eq!(plaintext.as_slice(), decrypted.as_slice());
}

#[test]
fn test_message_authentication() {
    let (session1, session2) = session_pair();

    let plaintext = b"Hello, secure world!";
    let mut encrypted = session1.encrypt_message(plaintext).unwrap();

    // Tamper with ciphertext
    encrypted.payload[0] ^= 0x01;

    // Decryption should fail due to authentication tag mismatch
    let result = session2.decrypt_message(&encrypted);
    assert!(result.is_err());
    assert!(result.unwrap_err().message().contains("authentication tag mismatch"));
}

#[test]
fn test_file_stream_encryption() {
    let (session1, session2) = session_pair();

    // Simulate file streaming
    let chunk1 = b"First chunk of file data...";
    let chunk2 = b"Second chunk of file data...";

    // Encrypt
    let (mut encryptor, iv) = session1.create_file_encryptor();
    let encrypted1 = encryptor.process(chunk1);
    let encrypted2 = encryptor.process(chunk2);

    // Decrypt
    let mut decryptor = session2.create_file_decryptor(&iv);
    let decrypted1 = decryptor.process(&encrypted1);
    let decrypted2 = decryptor.process(&encrypted2);

    assert_eq!(chunk1.as_slice(), decrypted1.as_slice());
    assert_eq!(chunk2.as_slice(), decrypted2.as_slice());
}

#[test]
fn test_key_separation() {
    let kp1 = Keypair::generate();
    let kp2 = Keypair::generate();

    let public2 = kp2.public_bytes();
    let session = Session::from_ecdh(kp1.secret, &public2).unwrap();

    // Message and file keys should be different
    assert_ne!(session.message_key(), session.file_key());
}

#[test]
fn test_large_buffer_encryption() {
    let (session1, session2) = session_pair();

    // Test with 256KB buffer
    let data = vec![0x42u8; 256 * 1024];

    let (mut encryptor, iv) = session1.create_file_encryptor();
    let mut encrypted = data.clone();
    encryptor.apply(&mut encrypted);

    let mut decryptor = session2.create_file_decryptor(&iv);
    decryptor.apply(&mut encrypted);

    assert_eq!(data, encrypted);
}

#[test]
fn x25519_known_answer() {
    let alice = Keypair::from_secret_bytes(hex32(
        "77076d0a7318a57d3c16c17251b26645df4c2f87ebc0992ab177fba51db92c2a",
    ));
    let bob = Keypair::from_secret_bytes(hex32(
        "5dab087e624a8a4b79e17f8b83800ee66f3bb1292618b6fd1c2f8b27ff88e0eb",
    ));
    assert_eq!(
        alice.public_bytes(),
        hex32("8520f0098930a754748b7ddcb43ef75a0dbf3a0d26381af4eba4a98eaa9b4e6a")
    );
    assert_eq!(
        bob.public_bytes(),
        hex32("de9edb7d7b7dc1b4d35b61c2ece435373f8343c85b78674dadfc7e146f882b4f")
    );
    let alice_public = alice.public_bytes();
    let bob_public = bob.public_bytes();
    let shared = hex32("4a5d9d5ba4ce2de1728e3bf480350f25e07e21c947d19e3376f09b3c1e161742");
    let a = Session::from_ecdh(alice.secret, &bob_public).unwrap();
    let b = Session::from_ecdh(bob.secret, &alice_public).unwrap();
    assert_eq!(a.shared_secret(), &shared);
    assert_eq!(b.shared_secret(), &shared);
    assert_eq!(a.message_key(), b.message_key());
    assert_eq!(a.file_key(), b.file_key());
}

#[test]
fn keys_are_hkdf_of_the_shared_secret() {
    let (session, _) = session_pair();
    let hk = Hkdf::<Sha256>::new(None, session.shared_secret());
    let mut message_key = [0u8; 32];
    hk.expand(b"msg-key", &mut message_key).unwrap();
    let mut file_key = [0u8; 32];
    hk.expand(b"file-key", &mut file_key).unwrap();
    assert_eq!(session.message_key(), &message_key);
    assert_eq!(session.file_key(), &file_key);
    assert_ne!(session.message_key(), session.shared_secret());

    let (m, f) = Session::derive_keys(session.shared_secret()).unwrap();
    assert_eq!(m, message_key);
    assert_eq!(f, file_key);
}

#[test]
fn encrypted_message_has_payload_nonce_and_tag() {
    let (session1, session2) = session_pair();
    let plaintext = b"sixteen byte msg";
    let nonce = [7u8; 12];
    let one = session1.encrypt_message_with_nonce(plaintext, nonce).unwrap();
    let two = session1.encrypt_message_with_nonce(plaintext, nonce).unwrap();
    assert_eq!(one.payload.len(), plaintext.len());
    assert_eq!(one.nonce, nonce);
    assert_eq!(one.tag.len(), 16);
    assert_ne!(one.payload.as_slice(), plaintext.as_slice());
    // the same key, nonce and plaintext give the same message
    assert_eq!(one.payload, two.payload);
    assert_eq!(one.tag, two.tag);
    assert_eq!(session2.decrypt_message(&one).unwrap(), plaintext.to_vec());

    let other = session1.encrypt_message_with_nonce(plaintext, [8u8; 12]).unwrap();
    assert_ne!(other.payload, one.payload);
}

#[test]
fn fresh_nonce_for_every_message() {
    let (session1, _) = session_pair();
    let a = session1.encrypt_message(b"same").unwrap();
    let b = session1.encrypt_message(b"same").unwrap();
    assert_ne!(a.nonce, b.nonce);
}

#[test]
fn any_flipped_bit_fails_authentication() {
    let (session1, session2) = session_pair();
    let plaintext = b"Attack at dawn";
    let encrypted = session1.encrypt_message(plaintext).unwrap();

    for bit in 0..8 {
        let mut m = encrypted.clone();
        m.payload[3] ^= 1 << bit;
        assert_eq!(session2.decrypt_message(&m).unwrap_err(), CryptoError::AuthFailure);

        let mut m = encrypted.clone();
        m.tag[15] ^= 1 << bit;
        assert_eq!(session2.decrypt_message(&m).unwrap_err(), CryptoError::AuthFailure);

        let mut m = encrypted.clone();
        m.nonce[0] ^= 1 << bit;
        assert_eq!(session2.decrypt_message(&m).unwrap_err(), CryptoError::AuthFailure);
    }
}

#[test]
fn wrong_session_fails_authentication() {
    let (session1, _) = session_pair();
    let (_, stranger) = session_pair();
    let encrypted = session1.encrypt_message(b"for bob only").unwrap();
    assert_eq!(stranger.decrypt_message(&encrypted).unwrap_err(), CryptoError::AuthFailure);
}

#[test]
fn stream_cipher_does_not_depend_on_chunking() {
    let (session1, session2) = session_pair();
    let data: Vec<u8> = (0..1000u32).map(|i| (i * 7 % 256) as u8).collect();

    let (mut encryptor, iv) = session1.create_file_encryptor();
    let whole = encryptor.process(&data);
    assert_eq!(whole.len(), data.len());
    assert_ne!(whole, data);

    // the peer's cipher, applied to pieces cut at odd places
    let mut pieces = session2.create_file_decryptor(&iv);
    let mut out = Vec::new();
    for (from, to) in [(0usize, 1usize), (1, 16), (16, 17), (17, 50), (50, 1000)] {
        out.extend_from_slice(&pieces.process(&whole[from..to]));
    }
    assert_eq!(out, data);

    // and encrypting in pieces gives the same ciphertext
    let mut again = session1.create_file_decryptor(&iv);
    let mut ciphertext = again.process(&data[..33]);
    ciphertext.extend_from_slice(&again.process(&data[33..]));
    assert_eq!(ciphertext, whole);
}
