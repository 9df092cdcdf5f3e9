use hyper_connect::crypto::session::{Keypair, Session};
use hyper_connect::crypto::stream_crypto::{FileStreamInit, StreamDecryptor, StreamEncryptor};

fn create_test_session() -> (Session, Session) {
    let kp1 = Keypair::generate();
    let kp2 = Keypair::generate();
    let public1 = kp1.public_bytes();
    let public2 = kp2.public_bytes();
    let session1 = Session::from_ecdh(kp1.secret, &public2).unwrap();
    let session2 = Session::from_ecdh(kp2.secret, &public1).unwrap();
    (session1, session2)
}

#[test]
fn test_stream_encrypt_decrypt_small() {
    let (session1, session2) = create_test_session();

    let plaintext = b"Hello, encrypted stream!";
    let mut encrypted = Vec::new();

    // Encrypt
    let (mut encryptor, iv) = StreamEncryptor::new(&session1, 1024);
    let encrypted_bytes = encryptor.encrypt_stream(plaintext, &mut encrypted);

    assert_eq!(encrypted_bytes, plaintext.len() as u64);

    // Decrypt
    let mut decrypted = Vec::new();
    let mut decryptor = StreamDecryptor::new(&session2, &iv, 1024);
    let decrypted_bytes = decryptor.decrypt_stream(&encrypted, &mut decrypted);

    assert_eq!(decrypted_bytes, plaintext.len() as u64);
    assert_eq!(plaintext.as_slice(), decrypted.as_slice());
}

#[test]
fn test_stream_encrypt_decrypt_large() {
    let (session1, session2) = create_test_session();

    // Create 1MB of test data
    let plaintext: Vec<u8> = (0..1024 * 1024).map(|i| (i % 256) as u8).collect();
    let mut encrypted = Vec::new();

    // Encrypt with 256KB buffer
    let (mut encryptor, iv) = StreamEncryptor::new(&session1, 256 * 1024);
    let encrypted_bytes = encryptor.encrypt_stream(&plaintext, &mut encrypted);

    assert_eq!(encrypted_bytes, plaintext.len() as u64);
    assert_eq!(encrypted.len(), plaintext.len());
    let differing = encrypted.iter().zip(plaintext.iter()).filter(|(a, b)| a != b).count();
    assert!(differing * 100 >= plaintext.len() * 99);

    // Decrypt with 256KB buffer
    let mut decrypted = Vec::new();
    let mut decryptor = StreamDecryptor::new(&session2, &iv, 256 * 1024);
    let decrypted_bytes = decryptor.decrypt_stream(&encrypted, &mut decrypted);

    assert_eq!(decrypted_bytes, plaintext.len() as u64);
    assert_eq!(plaintext, decrypted);
}

#[test]
fn test_stream_chunk_by_chunk() {
    let (session1, session2) = create_test_session();

    let plaintext = b"Chunk 1. Chunk 2. Chunk 3.";
    let mut encrypted = Vec::new();

    // Encrypt chunk by chunk with small buffer
    let (mut encryptor, iv) = StreamEncryptor::new(&session1, 8);
    let mut offset = 0;
    let mut sizes = Vec::new();
    loop {
        let n = encryptor.encrypt_chunk(plaintext, offset, &mut encrypted);
        if n == 0 {
            break;
        }
        sizes.push(n);
        offset += n;
    }
    assert_eq!(sizes, vec![8, 8, 8, 2]);

    // Decrypt chunk by chunk
    let mut decrypted = Vec::new();
    let mut decryptor = StreamDecryptor::new(&session2, &iv, 8);
    let mut offset = 0;
    loop {
        let n = decryptor.decrypt_chunk(&encrypted, offset, &mut decrypted);
        if n == 0 {
            break;
        }
        offset += n;
    }

    assert_eq!(plaintext.as_slice(), decrypted.as_slice());
}

#[test]
fn test_empty_stream() {
    let (session1, session2) = create_test_session();

    let plaintext: Vec<u8> = Vec::new();
    let mut encrypted = Vec::new();

    let (mut encryptor, iv) = StreamEncryptor::new(&session1, 1024);
    let encrypted_bytes = encryptor.encrypt_stream(&plaintext, &mut encrypted);

    assert_eq!(encrypted_bytes, 0);
    assert_eq!(encrypted.len(), 0);

    let mut decrypted = Vec::new();
    let mut decryptor = StreamDecryptor::new(&session2, &iv, 1024);
    let decrypted_bytes = decryptor.decrypt_stream(&encrypted, &mut decrypted);

    assert_eq!(decrypted_bytes, 0);
    assert_eq!(decrypted.len(), 0);
}

#[test]
fn test_binary_data_stream() {
    let (session1, session2) = create_test_session();

    // Create binary data with all byte values
    let plaintext: Vec<u8> = (0..=255).cycle().take(10000).collect();
    let mut encrypted = Vec::new();

    let (mut encryptor, iv) = StreamEncryptor::new(&session1, 2048);
    let encrypted_bytes = encryptor.encrypt_stream(&plaintext, &mut encrypted);

    assert_eq!(encrypted_bytes, plaintext.len() as u64);

    let mut decrypted = Vec::new();
    let mut decryptor = StreamDecryptor::new(&session2, &iv, 2048);
    let decrypted_bytes = decryptor.decrypt_stream(&encrypted, &mut decrypted);

    assert_eq!(decrypted_bytes, plaintext.len() as u64);
    assert_eq!(plaintext, decrypted);
}

#[test]
fn buffer_size_does_not_change_the_ciphertext() {
    let (session1, session2) = create_test_session();
    let plaintext: Vec<u8> = (0..5000u32).map(|i| (i % 251) as u8).collect();

    let (mut encryptor, iv) = StreamEncryptor::new(&session1, 7);
    let mut encrypted = vec![0xEE];
    assert_eq!(encryptor.encrypt_stream(&plaintext, &mut encrypted), 5000);
    assert_eq!(encrypted[0], 0xEE);
    assert_eq!(encrypted.len(), 5001);

    let mut decrypted = Vec::new();
    let mut decryptor = StreamDecryptor::new(&session2, &iv, 4096);
    assert_eq!(decryptor.decrypt_stream(&encrypted[1..], &mut decrypted), 5000);
    assert_eq!(decrypted, plaintext);

    // two streams through one encryptor continue the keystream
    let (mut encryptor, iv) = StreamEncryptor::new(&session1, 64);
    let mut wire = Vec::new();
    encryptor.encrypt_stream(&plaintext[..1234], &mut wire);
    encryptor.encrypt_stream(&plaintext[1234..], &mut wire);
    let mut decrypted = Vec::new();
    let mut decryptor = StreamDecryptor::new(&session2, &iv, 100);
    decryptor.decrypt_stream(&wire, &mut decrypted);
    assert_eq!(decrypted, plaintext);
}

#[test]
fn an_empty_buffer_reads_nothing() {
    let (session1, _) = create_test_session();
    let (mut encryptor, _) = StreamEncryptor::new(&session1, 0);
    let mut out = Vec::new();
    assert_eq!(encryptor.encrypt_stream(b"data", &mut out), 0);
    assert!(out.is_empty());
    assert_eq!(encryptor.encrypt_chunk(b"data", 0, &mut out), 0);
}

#[test]
fn file_stream_init_fields() {
    let init = FileStreamInit::new("test-transfer-id".to_string(), [0x42; 16], 1024000);
    assert_eq!(init.msg_type, "FILE_STREAM_INIT");
    assert_eq!(init.transfer_id, "test-transfer-id");
    assert_eq!(init.iv, [0x42; 16]);
    assert_eq!(init.file_size, 1024000);
}
