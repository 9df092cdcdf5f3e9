//! The secure channel: handshakes and sessions of one local device.
//!
//! The channel drives the handshake manager with the local identity and
//! keeps the session of every peer, under which messages to and from the
//! peer are encrypted and decrypted.

use crate::crypto::handshake::{
    spec_establish, HandshakeManager, HelloResponse, HelloSecure,
};
use crate::crypto::message_crypto::{
    decrypt_message, encrypt_message, spec_decrypt_message, EncryptedMessagePayload,
};
use crate::crypto::primitives::{spec_public_key, x25519_spec};
use crate::crypto::session::{
    spec_seal_message, spec_session_of, FileStreamCipherView, Session,
};
use crate::crypto::stream_crypto::{FileStreamInit, StreamDecryptor, StreamEncryptor};
use crate::crypto::{CryptoError, MAX_MESSAGE_SIZE, STREAM_BUFFER_SIZE};
use crate::registry::Registry;
use vstd::prelude::*;
use vstd::utf8::encode_utf8;

verus! {

/// Handshakes and sessions of the local device.
pub struct SecureChannelManager {
    handshake_manager: HandshakeManager,
    sessions: Registry<Session>,
    local_device_id: String,
    display_name: String,
    platform: String,
    app_version: String,
}

impl SecureChannelManager {
    /// The handshake manager.
    pub closed spec fn handshake(&self) -> HandshakeManager {
        self.handshake_manager
    }

    /// The sessions, by the peer's device id.
    pub closed spec fn sessions(&self) -> Map<Seq<char>, Session> {
        self.sessions@
    }

    /// The local device id.
    pub closed spec fn spec_local_device_id(&self) -> Seq<char> {
        self.local_device_id@
    }

    /// The local display name.
    pub closed spec fn spec_display_name(&self) -> Seq<char> {
        self.display_name@
    }

    /// The local platform tag.
    pub closed spec fn spec_platform(&self) -> Seq<char> {
        self.platform@
    }

    /// The local application version.
    pub closed spec fn spec_app_version(&self) -> Seq<char> {
        self.app_version@
    }

    /// Whether the handshake manager and the session map are well formed.
    pub closed spec fn wf(&self) -> bool {
        &&& self.handshake_manager.wf()
        &&& self.sessions.wf()
    }

    /// Whether only handshakes and sessions differ between two channels.
    pub open spec fn same_identity(&self, other: &SecureChannelManager) -> bool {
        &&& self.spec_local_device_id() == other.spec_local_device_id()
        &&& self.spec_display_name() == other.spec_display_name()
        &&& self.spec_platform() == other.spec_platform()
        &&& self.spec_app_version() == other.spec_app_version()
    }

    /// A channel of the given identity, with no handshake and no session.
    pub fn new(local_device_id: String, display_name: String, platform: String, app_version: String)
        -> (m: SecureChannelManager)
        ensures
            m.wf(),
            m.sessions() == Map::<Seq<char>, Session>::empty(),
            m.handshake().pending() == Map::<Seq<char>, crate::crypto::session::Keypair>::empty(),
            m.handshake().sessions() == Map::<Seq<char>, Session>::empty(),
            m.spec_local_device_id() == local_device_id@,
            m.spec_display_name() == display_name@,
            m.spec_platform() == platform@,
            m.spec_app_version() == app_version@,
    {
        SecureChannelManager {
            handshake_manager: HandshakeManager::new(),
            sessions: Registry::new(),
            local_device_id,
            display_name,
            platform,
            app_version,
        }
    }

    /// The local device id.
    pub fn local_device_id(&self) -> (r: &str)
        ensures
            r@ == self.spec_local_device_id(),
    {
        self.local_device_id.as_str()
    }

    /// Starts a handshake with a peer as the client and returns the secure
    /// hello to send: it carries the local identity and the public key of
    /// the keypair that is now pending for the peer.
    pub fn initiate_handshake(&mut self, peer_device_id: &str) -> (r: Result<
        HelloSecure,
        CryptoError,
    >)
        requires
            old(self).wf(),
        ensures
            final(self).wf(),
            final(self).same_identity(old(self)),
            final(self).sessions() == old(self).sessions(),
            final(self).handshake().sessions() == old(self).handshake().sessions(),
            final(self).handshake().pending().contains_key(peer_device_id@),
            final(self).handshake().pending().remove(peer_device_id@) == old(self).handshake().pending().remove(peer_device_id@),
            r matches Ok(hello) && {
                &&& hello.device_id@ == old(self).spec_local_device_id()
                &&& hello.display_name@ == old(self).spec_display_name()
                &&& hello.platform@ == old(self).spec_platform()
                &&& hello.app_version@ == old(self).spec_app_version()
                &&& hello.public_key == final(self).handshake().pending()[peer_device_id@].public
            },
    {
        self.handshake_manager.initiate_handshake(
            self.local_device_id.as_str(),
            self.display_name.as_str(),
            self.platform.as_str(),
            self.app_version.as_str(),
            peer_device_id,
        )
    }

    /// Completes the handshake with a peer as the client, on the peer's
    /// response. A response that does not accept is `HandshakeRejected`,
    /// and nothing changes. Otherwise the handshake is completed for the
    /// responder the response names, and on success the session is kept
    /// under `peer_device_id`.
    pub fn complete_handshake(&mut self, peer_device_id: &str, response: HelloResponse) -> (r:
        Result<Session, CryptoError>)
        requires
            old(self).wf(),
        ensures
            final(self).wf(),
            final(self).same_identity(old(self)),
            if !response.accepted {
                &&& r == Err::<Session, CryptoError>(CryptoError::HandshakeRejected)
                &&& final(self).sessions() == old(self).sessions()
                &&& final(self).handshake() == old(self).handshake()
            } else {
                &&& spec_establish(
                    old(self).handshake(),
                    response.device_id@,
                    response.public_key@,
                    r,
                    final(self).handshake(),
                )
                &&& final(self).sessions() == (match r {
                    Ok(s) => old(self).sessions().insert(peer_device_id@, s),
                    Err(_) => old(self).sessions(),
                })
            },
    {
        if !response.accepted {
            return Err(CryptoError::HandshakeRejected);
        }
        match self.handshake_manager.complete_handshake(response) {
            Ok(session) => {
                self.sessions.insert(peer_device_id, session);
                Ok(session)
            },
            Err(e) => Err(e),
        }
    }

    /// Answers a secure hello as the server and completes the handshake:
    /// returns the response to send, the session and the peer's device id,
    /// and keeps the session under that id. A peer whose secret `b` belongs
    /// to the hello's public key derives the same session from the
    /// response.
    pub fn handle_hello_secure(&mut self, hello: HelloSecure) -> (r: Result<
        (HelloResponse, Session, String),
        CryptoError,
    >)
        requires
            old(self).wf(),
        ensures
            final(self).wf(),
            final(self).same_identity(old(self)),
            !final(self).handshake().pending().contains_key(hello.device_id@),
            match r {
                Ok((response, session, peer)) => {
                    &&& peer@ == hello.device_id@
                    &&& response.device_id@ == old(self).spec_local_device_id()
                    &&& response.display_name@ == old(self).spec_display_name()
                    &&& response.platform@ == old(self).spec_platform()
                    &&& response.app_version@ == old(self).spec_app_version()
                    &&& response.accepted
                    &&& session.wf()
                    &&& final(self).sessions() == old(self).sessions().insert(
                        hello.device_id@,
                        session,
                    )
                    &&& final(self).handshake().sessions() == old(self).handshake().sessions().insert(hello.device_id@, session)
                    &&& forall|b: Seq<u8>|
                        b.len() == 32 && hello.public_key@ == #[trigger] spec_public_key(b)
                            ==> session@ == spec_session_of(x25519_spec(b, response.public_key@))
                },
                Err(e) => {
                    &&& e == CryptoError::KeyDerivationFailed
                    &&& final(self).sessions() == old(self).sessions()
                    &&& final(self).handshake().sessions() == old(self).handshake().sessions()
                },
            },
    {
        let peer_device_id = hello.device_id.clone();
        let public_key = hello.public_key;
        let response = match self.handshake_manager.handle_hello_secure(
            hello,
            self.local_device_id.as_str(),
            self.display_name.as_str(),
            self.platform.as_str(),
            self.app_version.as_str(),
        ) {
            Ok(r) => r,
            Err(e) => {
                return Err(e);
            },
        };
        proof {
            self.handshake_manager.lemma_wf_entries(peer_device_id@);
        }
        match self.handshake_manager.finalize_handshake(peer_device_id.as_str(), &public_key) {
            Ok(session) => {
                self.sessions.insert(peer_device_id.as_str(), session);
                Ok((response, session, peer_device_id))
            },
            Err(e) => Err(e),
        }
    }

    /// Encrypts a message for a peer. Without a session with the peer the
    /// error is `NoSession`; a text longer than `MAX_MESSAGE_SIZE` bytes is
    /// `MessageTooLarge`. The envelope decrypts to the text under the
    /// peer's session.
    pub fn send_encrypted_message(&self, peer_device_id: &str, message_json: &str) -> (r: Result<
        EncryptedMessagePayload,
        CryptoError,
    >)
        requires
            self.wf(),
        ensures
            match r {
                Ok(p) => {
                    &&& self.sessions().contains_key(peer_device_id@)
                    &&& encode_utf8(message_json@).len() <= MAX_MESSAGE_SIZE
                    &&& p.msg_type@ == "ENCRYPTED_MESSAGE"@
                    &&& p.spec_encrypted() == spec_seal_message(
                        self.sessions()[peer_device_id@]@.message_key,
                        p.iv@,
                        encode_utf8(message_json@),
                    )
                    &&& spec_decrypt_message(
                        self.sessions()[peer_device_id@]@.message_key,
                        p.spec_encrypted(),
                    ) == Ok::<Seq<char>, CryptoError>(message_json@)
                },
                Err(e) => if !self.sessions().contains_key(peer_device_id@) {
                    e == CryptoError::NoSession
                } else {
                    e == CryptoError::MessageTooLarge && encode_utf8(message_json@).len()
                        > MAX_MESSAGE_SIZE
                },
            },
    {
        match self.sessions.get(peer_device_id) {
            Some(session) => encrypt_message(session, message_json),
            None => Err(CryptoError::NoSession),
        }
    }

    /// Decrypts a message from a peer. Without a session with the peer the
    /// error is `NoSession`; a message that does not decrypt is
    /// `AuthFailure`.
    pub fn receive_encrypted_message(
        &self,
        peer_device_id: &str,
        encrypted: &EncryptedMessagePayload,
    ) -> (r: Result<String, CryptoError>)
        requires
            self.wf(),
        ensures
            match r {
                Ok(text) => self.sessions().contains_key(peer_device_id@) && spec_decrypt_message(
                    self.sessions()[peer_device_id@]@.message_key,
                    encrypted.spec_encrypted(),
                ) == Ok::<Seq<char>, CryptoError>(text@),
                Err(e) => if !self.sessions().contains_key(peer_device_id@) {
                    e == CryptoError::NoSession
                } else {
                    e == CryptoError::AuthFailure && spec_decrypt_message(
                        self.sessions()[peer_device_id@]@.message_key,
                        encrypted.spec_encrypted(),
                    ) is Err
                },
            },
    {
        match self.sessions.get(peer_device_id) {
            Some(session) => decrypt_message(session, encrypted),
            None => Err(CryptoError::NoSession),
        }
    }

    /// A stream encryptor under the file key of the peer's session, with
    /// its initialisation vector; `NoSession` without a session.
    pub fn create_file_encryptor(&self, peer_device_id: &str) -> (r: Result<
        (StreamEncryptor, [u8; 16]),
        CryptoError,
    >)
        requires
            self.wf(),
        ensures
            match r {
                Ok((encryptor, iv)) => {
                    &&& self.sessions().contains_key(peer_device_id@)
                    &&& encryptor.cipher() == (FileStreamCipherView {
                        key: self.sessions()[peer_device_id@]@.file_key,
                        iv: iv@,
                        position: 0,
                    })
                    &&& encryptor.buffer_size() == STREAM_BUFFER_SIZE
                },
                Err(e) => e == CryptoError::NoSession && !self.sessions().contains_key(
                    peer_device_id@,
                ),
            },
    {
        match self.sessions.get(peer_device_id) {
            Some(session) => Ok(StreamEncryptor::new(session, STREAM_BUFFER_SIZE)),
            None => Err(CryptoError::NoSession),
        }
    }

    /// The stream decryptor under the file key of the peer's session for
    /// the sender's initialisation vector; `NoSession` without a session.
    pub fn create_file_decryptor(&self, peer_device_id: &str, iv: &[u8; 16]) -> (r: Result<
        StreamDecryptor,
        CryptoError,
    >)
        requires
            self.wf(),
        ensures
            match r {
                Ok(decryptor) => {
                    &&& self.sessions().contains_key(peer_device_id@)
                    &&& decryptor.cipher() == (FileStreamCipherView {
                        key: self.sessions()[peer_device_id@]@.file_key,
                        iv: iv@,
                        position: 0,
                    })
                    &&& decryptor.buffer_size() == STREAM_BUFFER_SIZE
                },
                Err(e) => e == CryptoError::NoSession && !self.sessions().contains_key(
                    peer_device_id@,
                ),
            },
    {
        match self.sessions.get(peer_device_id) {
            Some(session) => Ok(StreamDecryptor::new(session, iv, STREAM_BUFFER_SIZE)),
            None => Err(CryptoError::NoSession),
        }
    }

    /// The announcement of an encrypted file stream.
    pub fn send_file_stream_init(&self, transfer_id: &str, iv: [u8; 16], file_size: u64) -> (r:
        FileStreamInit)
        ensures
            r.msg_type@ == "FILE_STREAM_INIT"@,
            r.transfer_id@ == transfer_id@,
            r.iv == iv,
            r.file_size == file_size,
    {
        FileStreamInit::new(transfer_id.to_owned(), iv, file_size)
    }

    /// The session with a peer, if there is one.
    pub fn get_session(&self, peer_device_id: &str) -> (r: Option<Session>)
        requires
            self.wf(),
        ensures
            match r {
                Some(s) => self.sessions().contains_key(peer_device_id@)
                    && self.sessions()[peer_device_id@] == s,
                None => !self.sessions().contains_key(peer_device_id@),
            },
    {
        match self.sessions.get(peer_device_id) {
            Some(s) => Some(*s),
            None => None,
        }
    }

    /// Whether there is a session with a peer.
    pub fn has_session(&self, peer_device_id: &str) -> (r: bool)
        requires
            self.wf(),
        ensures
            r == self.sessions().contains_key(peer_device_id@),
    {
        self.sessions.contains_key(peer_device_id)
    }

    /// Forgets a peer on disconnect: its session here, and its session and
    /// pending keypair in the handshake manager.
    pub fn remove_session(&mut self, peer_device_id: &str)
        requires
            old(self).wf(),
        ensures
            final(self).wf(),
            final(self).same_identity(old(self)),
            final(self).sessions() == old(self).sessions().remove(peer_device_id@),
            final(self).handshake().sessions() == old(self).handshake().sessions().remove(
                peer_device_id@,
            ),
            final(self).handshake().pending() == old(self).handshake().pending().remove(
                peer_device_id@,
            ),
    {
        let _ = self.sessions.remove(peer_device_id);
        self.handshake_manager.remove_session(peer_device_id);
    }

    /// The number of sessions.
    pub fn session_count(&self) -> (r: usize)
        requires
            self.wf(),
        ensures
            r == self.sessions().dom().len(),
    {
        self.sessions.len()
    }
}

} // verus!
