//! Cryptography: X25519 key agreement, HKDF key derivation, AES-256-GCM for
//! control messages and AES-256-CTR for file streams.

pub mod handshake;
pub mod message_crypto;
pub mod primitives;
pub mod session;
pub mod stream_crypto;

pub use handshake::{HandshakeManager, HandshakeState, HelloResponse, HelloSecure};
pub use message_crypto::{decrypt_message, encrypt_message, EncryptedMessagePayload};
pub use session::{EncryptedMessage, EphemeralSecret, FileStreamCipher, Keypair, Session};
pub use stream_crypto::{FileStreamInit, StreamDecryptor, StreamEncryptor};
use vstd::prelude::*;

verus! {

/// Recommended buffer size for file streaming: 256 KiB.
pub const STREAM_BUFFER_SIZE: usize = 262_144;

/// Largest plaintext of one encrypted message: 1 MiB.
pub const MAX_MESSAGE_SIZE: usize = 1_048_576;

/// Ways in which a cryptographic step can fail.
#[derive(Debug, Clone, Copy, PartialEq, Eq, Structural)]
pub enum CryptoError {
    /// The peer answered the handshake with `accepted = false`.
    HandshakeRejected,
    /// No handshake is pending for the peer.
    NoPendingHandshake,
    /// The derived subkeys are unusable.
    KeyDerivationFailed,
    /// The message did not authenticate; covers every decryption failure.
    AuthFailure,
    /// A key or initialisation vector has the wrong length.
    BadKeyLength,
    /// The plaintext is larger than a message may be.
    MessageTooLarge,
    /// No session is established with the peer.
    NoSession,
}

impl CryptoError {
    /// A description of the error for logs and events. It gives away no
    /// cryptographic detail.
    pub fn message(&self) -> (r: String)
        ensures
            r@ == (match *self {
                CryptoError::HandshakeRejected => "Handshake rejected by peer"@,
                CryptoError::NoPendingHandshake => "No pending handshake for this peer"@,
                CryptoError::KeyDerivationFailed => "Failed to derive session keys"@,
                CryptoError::AuthFailure => "Decryption failed - authentication tag mismatch"@,
                CryptoError::BadKeyLength => "Invalid key length"@,
                CryptoError::MessageTooLarge => "Message too large"@,
                CryptoError::NoSession => "No session for peer"@,
            }),
    {
        match self {
            CryptoError::HandshakeRejected => "Handshake rejected by peer".to_owned(),
            CryptoError::NoPendingHandshake => "No pending handshake for this peer".to_owned(),
            CryptoError::KeyDerivationFailed => "Failed to derive session keys".to_owned(),
            CryptoError::AuthFailure => "Decryption failed - authentication tag mismatch".to_owned(),
            CryptoError::BadKeyLength => "Invalid key length".to_owned(),
            CryptoError::MessageTooLarge => "Message too large".to_owned(),
            CryptoError::NoSession => "No session for peer".to_owned(),
        }
    }
}

} // verus!
