//! Session keys and the ciphers made from them.
//!
//! A session is born when the handshake completes: the X25519 shared secret
//! is expanded with HKDF into one key for messages and one for file streams.

use crate::bytes::{array_from_slice, bytes_equal, copy_range, extend_bytes};
use crate::crypto::primitives::{
    aes256_ctr_apply, aes256_ctr_keystream_spec, aes256_gcm_keystream_spec, aes256_gcm_open,
    aes256_gcm_seal, aes256_gcm_tag_spec, hkdf_sha256_expand, hkdf_sha256_spec, os_random_bytes,
    spec_public_key, x25519, x25519_basepoint, x25519_spec, GCM_MAX_PLAINTEXT, GCM_TAG_LEN,
};
use crate::crypto::CryptoError;
use vstd::prelude::*;
use vstd::utf8::encode_utf8;

verus! {

/// HKDF info string of the message key.
pub open spec fn spec_message_key_info() -> Seq<u8> {
    encode_utf8("msg-key"@)
}

/// HKDF info string of the file key.
pub open spec fn spec_file_key_info() -> Seq<u8> {
    encode_utf8("file-key"@)
}

/// An X25519 secret for one handshake. It cannot be copied, and the key
/// agreement consumes it.
pub struct EphemeralSecret {
    bytes: [u8; 32],
}

impl View for EphemeralSecret {
    type V = Seq<u8>;

    closed spec fn view(&self) -> Seq<u8> {
        self.bytes@
    }
}

/// Ephemeral keys for one handshake.
pub struct Keypair {
    pub secret: EphemeralSecret,
    pub public: [u8; 32],
}

impl Keypair {
    /// Whether the public key is the one that belongs to the secret.
    pub open spec fn wf(&self) -> bool {
        self.public@ == spec_public_key(self.secret@)
    }

    /// The keypair of the given secret bytes.
    pub fn from_secret_bytes(bytes: [u8; 32]) -> (kp: Keypair)
        ensures
            kp.wf(),
            kp.secret@ == bytes@,
    {
        let base = x25519_basepoint();
        let public = x25519(&bytes, &base);
        Keypair { secret: EphemeralSecret { bytes }, public }
    }

    /// A keypair whose secret is drawn from the operating system's random
    /// number generator.
    pub fn generate() -> (kp: Keypair)
        ensures
            kp.wf(),
    {
        Keypair::from_secret_bytes(os_random_bytes::<32>())
    }

    /// The public key, as it travels to the peer.
    pub fn public_bytes(&self) -> (r: [u8; 32])
        ensures
            r == self.public,
    {
        self.public
    }
}

/// Key material shared with one peer.
#[derive(Clone, Copy)]
pub struct Session {
    shared_secret: [u8; 32],
    message_key: [u8; 32],
    file_key: [u8; 32],
}

/// What a session is: the shared secret and the two keys derived from it.
pub struct SessionView {
    pub shared_secret: Seq<u8>,
    pub message_key: Seq<u8>,
    pub file_key: Seq<u8>,
}

/// The session that a shared secret gives rise to.
pub open spec fn spec_session_of(shared_secret: Seq<u8>) -> SessionView {
    SessionView {
        shared_secret,
        message_key: hkdf_sha256_spec(shared_secret, spec_message_key_info()),
        file_key: hkdf_sha256_spec(shared_secret, spec_file_key_info()),
    }
}

/// Encrypted message container: ciphertext, nonce and authentication tag.
#[derive(Debug, Clone)]
pub struct EncryptedMessage {
    pub payload: Vec<u8>,
    pub nonce: [u8; 12],
    pub tag: [u8; 16],
}

/// What an encrypted message is.
pub struct EncryptedMessageView {
    pub payload: Seq<u8>,
    pub nonce: Seq<u8>,
    pub tag: Seq<u8>,
}

impl View for EncryptedMessage {
    type V = EncryptedMessageView;

    open spec fn view(&self) -> EncryptedMessageView {
        EncryptedMessageView { payload: self.payload@, nonce: self.nonce@, tag: self.tag@ }
    }
}

/// `data` with each byte XORed with the byte at its position of the
/// keystream with which messages are encrypted.
pub open spec fn spec_gcm_xor(key: Seq<u8>, nonce: Seq<u8>, data: Seq<u8>) -> Seq<u8> {
    Seq::new(data.len(), |i: int| data[i] ^ aes256_gcm_keystream_spec(key, nonce, i))
}

/// The encrypted message that a key and a nonce make of a plaintext: the
/// payload is the plaintext under the keystream, the tag authenticates the
/// payload.
pub open spec fn spec_seal_message(key: Seq<u8>, nonce: Seq<u8>, plaintext: Seq<u8>)
    -> EncryptedMessageView {
    EncryptedMessageView {
        payload: spec_gcm_xor(key, nonce, plaintext),
        nonce,
        tag: aes256_gcm_tag_spec(key, nonce, spec_gcm_xor(key, nonce, plaintext)),
    }
}

/// The plaintext of an encrypted message under a key; `None` where the
/// payload is longer than a plaintext may be, or the tag is not the tag of
/// the payload.
pub open spec fn spec_open_message(key: Seq<u8>, m: EncryptedMessageView) -> Option<Seq<u8>> {
    if m.payload.len() <= GCM_MAX_PLAINTEXT && m.tag == aes256_gcm_tag_spec(
        key,
        m.nonce,
        m.payload,
    ) {
        Some(spec_gcm_xor(key, m.nonce, m.payload))
    } else {
        None
    }
}

/// Decrypting what was encrypted gives the plaintext back, for every key,
/// nonce and plaintext that may be encrypted.
pub proof fn lemma_message_roundtrip(key: Seq<u8>, nonce: Seq<u8>, plaintext: Seq<u8>)
    requires
        plaintext.len() <= GCM_MAX_PLAINTEXT,
    ensures
        spec_open_message(key, spec_seal_message(key, nonce, plaintext)) == Some(plaintext),
{
    let once = spec_gcm_xor(key, nonce, plaintext);
    let twice = spec_gcm_xor(key, nonce, once);
    assert forall|i: int| 0 <= i < plaintext.len() implies twice[i] == plaintext[i] by {
        let a = plaintext[i];
        let k = aes256_gcm_keystream_spec(key, nonce, i);
        assert((a ^ k) ^ k == a) by (bit_vector);
    }
    assert(twice =~= plaintext);
}

/// An encrypted message whose tag was changed does not decrypt: of two
/// messages that differ in the tag only, at most one is authentic.
pub proof fn lemma_tampered_tag_rejected(key: Seq<u8>, m: EncryptedMessageView, tag: Seq<u8>)
    requires
        spec_open_message(key, m) is Some,
        tag != m.tag,
    ensures
        spec_open_message(key, EncryptedMessageView { tag, ..m }) is None,
{
}

/// `data` with each byte XORed with the keystream byte at its position,
/// the first byte standing at position `pos`.
pub open spec fn spec_ctr_xor(key: Seq<u8>, iv: Seq<u8>, pos: int, data: Seq<u8>) -> Seq<u8> {
    Seq::new(data.len(), |i: int| data[i] ^ aes256_ctr_keystream_spec(key, iv, pos + i))
}

/// Applying the keystream twice at the same position restores the data:
/// decryption undoes encryption.
pub proof fn lemma_ctr_roundtrip(key: Seq<u8>, iv: Seq<u8>, pos: int, data: Seq<u8>)
    ensures
        spec_ctr_xor(key, iv, pos, spec_ctr_xor(key, iv, pos, data)) == data,
{
    let once = spec_ctr_xor(key, iv, pos, data);
    let twice = spec_ctr_xor(key, iv, pos, once);
    assert forall|i: int| 0 <= i < data.len() implies twice[i] == data[i] by {
        let a = data[i];
        let k = aes256_ctr_keystream_spec(key, iv, pos + i);
        assert((a ^ k) ^ k == a) by (bit_vector);
    }
    assert(twice =~= data);
}

/// Applying the keystream to two pieces one after the other is applying it
/// to their concatenation: a stream may be cut into chunks anywhere.
pub proof fn lemma_ctr_concat(key: Seq<u8>, iv: Seq<u8>, pos: int, a: Seq<u8>, b: Seq<u8>)
    ensures
        spec_ctr_xor(key, iv, pos, a) + spec_ctr_xor(key, iv, pos + a.len(), b) == spec_ctr_xor(
            key,
            iv,
            pos,
            a + b,
        ),
{
    assert(spec_ctr_xor(key, iv, pos, a) + spec_ctr_xor(key, iv, pos + a.len(), b)
        =~= spec_ctr_xor(key, iv, pos, a + b));
}

impl View for Session {
    type V = SessionView;

    closed spec fn view(&self) -> SessionView {
        SessionView {
            shared_secret: self.shared_secret@,
            message_key: self.message_key@,
            file_key: self.file_key@,
        }
    }
}

impl Session {
    /// Whether the keys are the ones derived from the shared secret, and
    /// differ from each other.
    pub open spec fn wf(&self) -> bool {
        &&& self@ == spec_session_of(self@.shared_secret)
        &&& self@.message_key != self@.file_key
    }

    /// Derives the message key and the file key from a shared secret. Fails
    /// exactly when the two would be the same key.
    pub fn derive_keys(shared_secret: &[u8]) -> (r: Result<([u8; 32], [u8; 32]), CryptoError>)
        ensures
            match r {
                Ok((message_key, file_key)) => {
                    &&& message_key@ == spec_session_of(shared_secret@).message_key
                    &&& file_key@ == spec_session_of(shared_secret@).file_key
                    &&& message_key@ != file_key@
                },
                Err(e) => {
                    &&& e == CryptoError::KeyDerivationFailed
                    &&& spec_session_of(shared_secret@).message_key == spec_session_of(
                        shared_secret@,
                    ).file_key
                },
            },
    {
        let message_key = match hkdf_sha256_expand(shared_secret, "msg-key".as_bytes()) {
            Some(k) => k,
            None => {
                return Err(CryptoError::KeyDerivationFailed);
            },
        };
        let file_key = match hkdf_sha256_expand(shared_secret, "file-key".as_bytes()) {
            Some(k) => k,
            None => {
                return Err(CryptoError::KeyDerivationFailed);
            },
        };
        if bytes_equal(message_key.as_slice(), file_key.as_slice()) {
            return Err(CryptoError::KeyDerivationFailed);
        }
        Ok((message_key, file_key))
    }

    /// The session that our secret and the peer's public key give. The
    /// secret is consumed. Where the peer's public key belongs to a secret
    /// `b`, the shared secret is the one that `b` derives from our public
    /// key: both sides hold the same session.
    pub fn from_ecdh(our_secret: EphemeralSecret, peer_public: &[u8; 32]) -> (r: Result<
        Session,
        CryptoError,
    >)
        ensures
            match r {
                Ok(s) => {
                    &&& s.wf()
                    &&& s@ == spec_session_of(x25519_spec(our_secret@, peer_public@))
                    &&& forall|b: Seq<u8>|
                        b.len() == 32 && peer_public@ == #[trigger] spec_public_key(b) ==> s@
                            == spec_session_of(x25519_spec(b, spec_public_key(our_secret@)))
                },
                Err(e) => {
                    &&& e == CryptoError::KeyDerivationFailed
                    &&& spec_session_of(x25519_spec(our_secret@, peer_public@)).message_key
                        == spec_session_of(x25519_spec(our_secret@, peer_public@)).file_key
                },
            },
    {
        let shared_secret = x25519(&our_secret.bytes, peer_public);
        match Session::derive_keys(shared_secret.as_slice()) {
            Ok((message_key, file_key)) => Ok(Session { shared_secret, message_key, file_key }),
            Err(e) => Err(e),
        }
    }

    /// Encrypts a message under the message key with the given nonce.
    /// Fails exactly when the plaintext is longer than the cipher accepts.
    /// The result decrypts to the plaintext under the same session.
    pub fn encrypt_message_with_nonce(&self, plaintext: &[u8], nonce: [u8; 12]) -> (r: Result<
        EncryptedMessage,
        CryptoError,
    >)
        ensures
            r is Ok <==> plaintext@.len() <= GCM_MAX_PLAINTEXT,
            r matches Ok(m) ==> {
                &&& m@ == spec_seal_message(self@.message_key, nonce@, plaintext@)
                &&& m@.payload.len() == plaintext@.len()
                &&& spec_open_message(self@.message_key, m@) == Some(plaintext@)
            },
            r matches Err(e) ==> e == CryptoError::MessageTooLarge,
    {
        let sealed = match aes256_gcm_seal(&self.message_key, &nonce, plaintext) {
            Some(c) => c,
            None => {
                return Err(CryptoError::MessageTooLarge);
            },
        };
        let tag_start: usize = sealed.len() - GCM_TAG_LEN;
        let payload = copy_range(sealed.as_slice(), 0, tag_start);
        let tag: [u8; 16] = array_from_slice::<16>(sealed.as_slice(), tag_start);
        proof {
            assert(payload@ =~= spec_gcm_xor(self@.message_key, nonce@, plaintext@));
            lemma_message_roundtrip(self@.message_key, nonce@, plaintext@);
        }
        Ok(EncryptedMessage { payload, nonce, tag })
    }

    /// Encrypts a message under the message key with a freshly drawn nonce.
    /// Whatever nonce was drawn, the result is the encryption under it and
    /// decrypts to the plaintext under the same session.
    pub fn encrypt_message(&self, plaintext: &[u8]) -> (r: Result<EncryptedMessage, CryptoError>)
        ensures
            r is Ok <==> plaintext@.len() <= GCM_MAX_PLAINTEXT,
            r matches Ok(m) ==> {
                &&& m@ == spec_seal_message(self@.message_key, m@.nonce, plaintext@)
                &&& m@.payload.len() == plaintext@.len()
                &&& spec_open_message(self@.message_key, m@) == Some(plaintext@)
            },
            r matches Err(e) ==> e == CryptoError::MessageTooLarge,
    {
        self.encrypt_message_with_nonce(plaintext, os_random_bytes::<12>())
    }

    /// Decrypts a message under the message key. Every failure is the one
    /// error `AuthFailure`.
    pub fn decrypt_message(&self, encrypted: &EncryptedMessage) -> (r: Result<Vec<u8>, CryptoError>)
        ensures
            match r {
                Ok(plaintext) => spec_open_message(self@.message_key, encrypted@) == Some(
                    plaintext@,
                ),
                Err(e) => e == CryptoError::AuthFailure && spec_open_message(
                    self@.message_key,
                    encrypted@,
                ) is None,
            },
    {
        if encrypted.payload.len() as u64 > GCM_MAX_PLAINTEXT {
            return Err(CryptoError::AuthFailure);
        }
        let mut sealed: Vec<u8> = Vec::new();
        extend_bytes(&mut sealed, encrypted.payload.as_slice());
        extend_bytes(&mut sealed, encrypted.tag.as_slice());
        let ghost n = encrypted@.payload.len() as int;
        assert(sealed@ =~= encrypted@.payload + encrypted@.tag);
        assert(sealed@.subrange(0, n) =~= encrypted@.payload);
        assert(sealed@.subrange(n, n + 16) =~= encrypted@.tag);
        match aes256_gcm_open(&self.message_key, &encrypted.nonce, sealed.as_slice()) {
            Some(plaintext) => {
                assert(plaintext@ =~= spec_gcm_xor(
                    self@.message_key,
                    encrypted@.nonce,
                    encrypted@.payload,
                ));
                Ok(plaintext)
            },
            None => Err(CryptoError::AuthFailure),
        }
    }

    /// A stream cipher under the file key with a freshly drawn
    /// initialisation vector, which must reach the peer before the data.
    pub fn create_file_encryptor(&self) -> (r: (FileStreamCipher, [u8; 16]))
        ensures
            r.0@ == (FileStreamCipherView { key: self@.file_key, iv: r.1@, position: 0 }),
    {
        let iv = os_random_bytes::<16>();
        (FileStreamCipher { key: self.file_key, iv, position: 0 }, iv)
    }

    /// The stream cipher under the file key for the sender's
    /// initialisation vector.
    pub fn create_file_decryptor(&self, iv: &[u8; 16]) -> (r: FileStreamCipher)
        ensures
            r@ == (FileStreamCipherView { key: self@.file_key, iv: iv@, position: 0 }),
    {
        FileStreamCipher { key: self.file_key, iv: *iv, position: 0 }
    }

    /// The shared secret.
    pub fn shared_secret(&self) -> (r: &[u8; 32])
        ensures
            r@ == self@.shared_secret,
    {
        &self.shared_secret
    }

    /// The key for control messages.
    pub fn message_key(&self) -> (r: &[u8; 32])
        ensures
            r@ == self@.message_key,
    {
        &self.message_key
    }

    /// The key for file streams.
    pub fn file_key(&self) -> (r: &[u8; 32])
        ensures
            r@ == self@.file_key,
    {
        &self.file_key
    }
}

/// AES-256-CTR cipher for one stream: the key, the initialisation vector
/// and how many bytes of keystream have been used.
pub struct FileStreamCipher {
    key: [u8; 32],
    iv: [u8; 16],
    position: u64,
}

/// What a stream cipher is.
pub struct FileStreamCipherView {
    pub key: Seq<u8>,
    pub iv: Seq<u8>,
    pub position: int,
}

impl View for FileStreamCipher {
    type V = FileStreamCipherView;

    closed spec fn view(&self) -> FileStreamCipherView {
        FileStreamCipherView { key: self.key@, iv: self.iv@, position: self.position as int }
    }
}

impl FileStreamCipher {
    /// XORs the buffer in place with the next bytes of the keystream and
    /// moves the position past them. The same call encrypts and decrypts.
    pub fn apply(&mut self, buffer: &mut Vec<u8>)
        requires
            old(self)@.position + old(buffer)@.len() <= u64::MAX,
        ensures
            final(buffer)@ == spec_ctr_xor(
                old(self)@.key,
                old(self)@.iv,
                old(self)@.position,
                old(buffer)@,
            ),
            final(self)@ == (FileStreamCipherView {
                position: old(self)@.position + old(buffer)@.len(),
                ..old(self)@
            }),
    {
        aes256_ctr_apply(&self.key, &self.iv, self.position, buffer);
        assert(buffer@ =~= spec_ctr_xor(
            old(self)@.key,
            old(self)@.iv,
            old(self)@.position,
            old(buffer)@,
        ));
        self.position = self.position + buffer.len() as u64;
    }

    /// The input XORed with the next bytes of the keystream, as a new
    /// vector.
    pub fn process(&mut self, input: &[u8]) -> (output: Vec<u8>)
        requires
            old(self)@.position + input@.len() <= u64::MAX,
        ensures
            output@ == spec_ctr_xor(old(self)@.key, old(self)@.iv, old(self)@.position, input@),
            final(self)@ == (FileStreamCipherView {
                position: old(self)@.position + input@.len(),
                ..old(self)@
            }),
    {
        let mut output = copy_range(input, 0, input.len());
        assert(output@ =~= input@);
        self.apply(&mut output);
        output
    }
}

} // verus!
