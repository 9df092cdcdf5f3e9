use hyper_connect::crypto::handshake::{HandshakeManager, HandshakeState, HelloResponse};
use hyper_connect::crypto::CryptoError;

#[test]
fn test_handshake_manager_creation() {
    let manager = HandshakeManager::new();
    assert_eq!(manager.session_count(), 0);
    assert_eq!(manager.pending_count(), 0);
}

#[test]
fn test_full_handshake_flow() {
    // Simulate Alice and Bob
    let mut alice_manager = HandshakeManager::new();
    let mut bob_manager = HandshakeManager::new();

    let alice_id = "alice-uuid";
    let bob_id = "bob-uuid";

    // Alice initiates handshake
    let hello = alice_manager
        .initiate_handshake(alice_id, "Alice", "macos", "0.1.0", bob_id)
        .unwrap();

    assert_eq!(hello.device_id, alice_id);
    assert_eq!(alice_manager.pending_count(), 1);

    // Bob receives HELLO_SECURE and responds
    let response = bob_manager
        .handle_hello_secure(hello.clone(), bob_id, "Bob", "linux", "0.1.0")
        .unwrap();

    assert_eq!(response.device_id, bob_id);
    assert!(response.accepted);
    assert_eq!(bob_manager.pending_count(), 1);

    // Bob finalizes his side
    let bob_session = bob_manager
        .finalize_handshake(alice_id, &hello.public_key)
        .unwrap();

    assert_eq!(bob_manager.session_count(), 1);
    assert_eq!(bob_manager.pending_count(), 0);
    assert!(bob_manager.has_session(alice_id));

    // Alice receives HELLO_RESPONSE and completes handshake
    let alice_session = alice_manager.complete_handshake(response).unwrap();

    assert_eq!(alice_manager.session_count(), 1);
    assert_eq!(alice_manager.pending_count(), 0);
    assert!(alice_manager.has_session(bob_id));

    // Both should have valid sessions
    assert!(alice_manager.get_session(bob_id).is_some());
    assert!(bob_manager.get_session(alice_id).is_some());

    // and the sessions agree
    assert_eq!(alice_session.shared_secret(), bob_session.shared_secret());
    assert_eq!(alice_session.message_key(), bob_session.message_key());
    assert_eq!(alice_session.file_key(), bob_session.file_key());
}

#[test]
fn test_session_removal() {
    let mut manager = HandshakeManager::new();
    let peer_id = "peer-uuid";

    // Create a dummy handshake
    let _ = manager
        .initiate_handshake("me", "Me", "linux", "0.1.0", peer_id)
        .unwrap();

    assert_eq!(manager.pending_count(), 1);

    // Remove session
    manager.remove_session(peer_id);

    assert_eq!(manager.pending_count(), 0);
    assert_eq!(manager.session_count(), 0);
}

#[test]
fn test_clear_all() {
    let mut manager = HandshakeManager::new();

    // Create multiple pending handshakes
    let _ = manager
        .initiate_handshake("me", "Me", "linux", "0.1.0", "peer1")
        .unwrap();
    let _ = manager
        .initiate_handshake("me", "Me", "linux", "0.1.0", "peer2")
        .unwrap();

    assert_eq!(manager.pending_count(), 2);

    manager.clear_all();

    assert_eq!(manager.pending_count(), 0);
    assert_eq!(manager.session_count(), 0);
}

#[test]
fn handshake_round_trip_alice_and_bob() {
    let mut alice = HandshakeManager::new();
    let mut bob = HandshakeManager::new();

    let hello = alice.initiate_handshake("alice", "Alice", "macos", "0.1.0", "bob").unwrap();
    assert_eq!(hello.display_name, "Alice");
    assert_eq!(hello.platform, "macos");
    assert_eq!(hello.app_version, "0.1.0");
    let alice_public = hello.public_key;

    let response = bob.handle_hello_secure(hello, "bob", "Bob", "linux", "0.1.0").unwrap();
    assert!(response.accepted);
    assert_eq!(response.display_name, "Bob");

    let alice_session = alice.complete_handshake(response).unwrap();
    let bob_session = bob.finalize_handshake("alice", &alice_public).unwrap();
    assert_eq!(alice_session.shared_secret(), bob_session.shared_secret());
}

#[test]
fn completing_without_a_pending_handshake_fails() {
    let mut manager = HandshakeManager::new();
    let response = HelloResponse {
        device_id: "stranger".to_string(),
        display_name: "S".to_string(),
        platform: "linux".to_string(),
        app_version: "0.1.0".to_string(),
        public_key: [9u8; 32],
        accepted: true,
    };
    assert_eq!(
        manager.complete_handshake(response).err().unwrap(),
        CryptoError::NoPendingHandshake
    );
    assert_eq!(
        manager.finalize_handshake("stranger", &[9u8; 32]).err().unwrap(),
        CryptoError::NoPendingHandshake
    );
    assert_eq!(manager.session_count(), 0);
    assert_eq!(manager.pending_count(), 0);
}

#[test]
fn a_handshake_completes_only_once() {
    let mut alice = HandshakeManager::new();
    let mut bob = HandshakeManager::new();
    let hello = alice.initiate_handshake("alice", "Alice", "macos", "0.1.0", "bob").unwrap();
    let response = bob.handle_hello_secure(hello, "bob", "Bob", "linux", "0.1.0").unwrap();
    assert!(alice.complete_handshake(response.clone()).is_ok());
    assert!(!alice.has_session("alice"));
    assert!(alice.has_session("bob"));
    assert_eq!(alice.pending_count(), 0);
    // the secret is gone: the same response cannot be used again
    assert_eq!(
        alice.complete_handshake(response).err().unwrap(),
        CryptoError::NoPendingHandshake
    );
    assert_eq!(alice.session_count(), 1);
}

#[test]
fn a_second_initiation_replaces_the_pending_keypair() {
    let mut manager = HandshakeManager::new();
    let first = manager.initiate_handshake("me", "Me", "linux", "0.1.0", "peer").unwrap();
    let second = manager.initiate_handshake("me", "Me", "linux", "0.1.0", "peer").unwrap();
    assert_ne!(first.public_key, second.public_key);
    assert_eq!(manager.pending_count(), 1);
}

#[test]
fn default_manager_is_empty() {
    let manager = HandshakeManager::default();
    assert_eq!(manager.session_count(), 0);
    assert_eq!(manager.pending_count(), 0);
    assert!(!manager.has_session("anyone"));
    assert!(manager.get_session("anyone").is_none());
    assert_ne!(HandshakeState::Idle, HandshakeState::Established);
    assert_eq!(HandshakeState::Failed("x".to_string()), HandshakeState::Failed("x".to_string()));
}
