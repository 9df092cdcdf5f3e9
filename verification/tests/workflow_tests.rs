use hyper_connect::crypto::{
    decrypt_message, encrypt_message, HandshakeManager, StreamDecryptor, StreamEncryptor,
};

#[test]
fn test_full_encryption_workflow() {
    // Simulate full handshake and encryption workflow
    let mut alice_manager = HandshakeManager::new();
    let mut bob_manager = HandshakeManager::new();

    // Handshake
    let hello = alice_manager
        .initiate_handshake("alice", "Alice", "macos", "0.1.0", "bob")
        .unwrap();

    let response = bob_manager
        .handle_hello_secure(hello.clone(), "bob", "Bob", "linux", "0.1.0")
        .unwrap();

    let alice_session = alice_manager.complete_handshake(response).unwrap();
    let bob_session = bob_manager
        .finalize_handshake("alice", &hello.public_key)
        .unwrap();

    // Message encryption
    let message = "Hello from Alice!";
    let encrypted = encrypt_message(&alice_session, message).unwrap();
    let decrypted = decrypt_message(&bob_session, &encrypted).unwrap();
    assert_eq!(message, decrypted);

    // Stream encryption
    let data = b"File content goes here...";
    let mut encrypted_data = Vec::new();

    let (mut encryptor, iv) = StreamEncryptor::new(&alice_session, 1024);
    encryptor.encrypt_stream(data, &mut encrypted_data);

    let mut decrypted_data = Vec::new();
    let mut decryptor = StreamDecryptor::new(&bob_session, &iv, 1024);
    decryptor.decrypt_stream(&encrypted_data, &mut decrypted_data);

    assert_eq!(data.as_slice(), decrypted_data.as_slice());
}
