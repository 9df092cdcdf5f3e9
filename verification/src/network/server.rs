//! The server side of a connection: what to do with each frame.
//!
//! A connection starts by waiting for its first frame. A secure hello leads
//! through the handshake into the encrypted session; a plaintext frame
//! leads into the legacy plaintext session; anything else closes the
//! connection. Reading and writing the socket happens elsewhere: this
//! module is handed what was read and answers with the next state and what
//! is to be done.

use crate::crypto::handshake::{HelloResponse, HelloSecure};
use crate::crypto::message_crypto::{
    decrypt_message, spec_decrypt_message, spec_envelope_from_json, EncryptedMessagePayload,
};
use crate::outside_std::string_from_utf8;
use vstd::utf8::{decode_utf8, valid_utf8};
use crate::crypto::primitives::{
    json_string_field, json_string_field_spec, spec_public_key, x25519_spec,
};
use crate::crypto::session::{
    spec_ctr_xor, spec_session_of, FileStreamCipher, FileStreamCipherView, Keypair, Session,
};
use crate::crypto::stream_crypto::FileStreamInit;
use crate::crypto::CryptoError;
use crate::bytes::copy_range;
use crate::identity::DeviceIdentity;
use crate::protocol::{
    spec_decode_header, FileDataHeader, Frame, MessageType, ProtocolError,
};
use vstd::prelude::*;

verus! {

/// Seconds without a frame after which a connection is closed.
pub const IDLE_TIMEOUT_SECS: u64 = 120;

/// Seconds between keep-alive probes on an accepted socket.
pub const KEEPALIVE_INTERVAL_SECS: u64 = 30;

/// Size asked for the receive buffer of an accepted socket.
pub const RECV_BUFFER_SIZE: usize = 262_144;

/// Size asked for the send buffer of an accepted socket.
pub const SEND_BUFFER_SIZE: usize = 262_144;

/// Where a connection stands.
#[derive(Debug, Clone, Copy, PartialEq, Eq, Structural)]
pub enum ConnectionState {
    /// Nothing has been read yet.
    AwaitFirstFrame,
    /// A secure hello has arrived; the response is not sent yet.
    SecureHandshake,
    /// The handshake is done; control messages arrive encrypted.
    EncryptedSession,
    /// An encrypted file stream is being received.
    FileStreamReceive,
    /// The peer speaks the plaintext protocol.
    PlaintextLegacy,
    /// The connection is over.
    Closed,
}

/// What happened on a connection.
#[derive(Debug, Clone, Copy, PartialEq, Eq, Structural)]
pub enum ConnectionEvent {
    /// A frame of the given type was read.
    FrameRead(MessageType),
    /// The hello response was sent and the session derived.
    HandshakeDone,
    /// The handshake could not be completed.
    HandshakeFailed,
    /// The last chunk of the file stream was received.
    FileStreamDone,
    /// The peer closed the connection between two frames.
    EndOfStream,
    /// No frame arrived within the idle timeout.
    IdleTimeout,
    /// Reading failed, or what was read is no frame.
    ReadFailed,
    /// Handling the last frame failed.
    HandlingFailed,
}

/// Why a connection was closed.
#[derive(Debug, Clone, Copy, PartialEq, Eq, Structural)]
pub enum CloseReason {
    /// The peer closed the connection.
    PeerClosed,
    /// A frame arrived that is not allowed in the connection's state.
    ProtocolViolation,
    /// The handshake failed.
    HandshakeFailed,
    /// No frame arrived in time.
    IdleTimeout,
    /// Reading from the socket failed.
    ReadFailed,
    /// A frame could not be handled.
    HandlingFailed,
}

/// What is to be done after an event.
#[derive(Debug, Clone, Copy, PartialEq, Eq, Structural)]
pub enum ConnectionAction {
    /// Answer the secure hello and derive the session.
    RespondToHello,
    /// Announce the encrypted peer as connected.
    AnnounceEncryptedPeer,
    /// Warn that the connection is plaintext, then handle the frame as a
    /// plaintext frame.
    WarnAndHandlePlaintext(MessageType),
    /// Handle a frame of the plaintext protocol.
    HandlePlaintext(MessageType),
    /// Decrypt the control message and route it.
    DecryptMessage,
    /// Start receiving an encrypted file stream.
    BeginFileStream,
    /// Decrypt one chunk of the file stream.
    DecryptChunk,
    /// Note that the peer is alive.
    NoteHeartbeat,
    /// Nothing.
    Proceed,
    /// Forget the peer's session, announce the peer as disconnected, and
    /// close the socket.
    Close(CloseReason),
}

/// Whether a message type belongs to the plaintext protocol.
pub open spec fn spec_is_plaintext_type(t: MessageType) -> bool {
    t.spec_code() <= 0x0A
}

/// Whether a message type belongs to the plaintext protocol.
pub fn is_plaintext_type(t: MessageType) -> (r: bool)
    ensures
        r == spec_is_plaintext_type(t),
{
    t.code() <= 0x0A
}

/// What a frame of the plaintext protocol asks for.
#[derive(Debug, Clone, Copy, PartialEq, Eq, Structural)]
pub enum PlaintextAction {
    /// Announce the peer as connected, unencrypted, and remember its id.
    AnnounceDevice,
    /// Hand the text message on.
    DeliverMessage,
    /// Register the incoming file request.
    RegisterFileRequest,
    /// Write the chunk at its offset.
    WriteChunk,
    /// Verify the received file against the announced checksum.
    VerifyCompletion,
    /// Hand the cancellation on.
    DeliverCancel,
    /// Hand the rejection on.
    DeliverReject,
    /// Note that the peer is alive.
    NoteHeartbeat,
    /// Nothing: acknowledgments and error notices are only logged, and
    /// frames of the encrypted protocol are ignored.
    Ignore,
}

/// What a frame of the given type asks for on a plaintext connection.
pub open spec fn spec_plaintext_action(t: MessageType) -> PlaintextAction {
    match t {
        MessageType::Hello => PlaintextAction::AnnounceDevice,
        MessageType::TextMessage => PlaintextAction::DeliverMessage,
        MessageType::FileRequest => PlaintextAction::RegisterFileRequest,
        MessageType::FileData => PlaintextAction::WriteChunk,
        MessageType::FileComplete => PlaintextAction::VerifyCompletion,
        MessageType::FileCancel => PlaintextAction::DeliverCancel,
        MessageType::FileReject => PlaintextAction::DeliverReject,
        MessageType::Heartbeat => PlaintextAction::NoteHeartbeat,
        _ => PlaintextAction::Ignore,
    }
}

/// What a frame of the given type asks for on a plaintext connection.
pub fn handle_plaintext_frame(t: MessageType) -> (r: PlaintextAction)
    ensures
        r == spec_plaintext_action(t),
        !spec_is_plaintext_type(t) ==> r == PlaintextAction::Ignore,
{
    match t {
        MessageType::Hello => PlaintextAction::AnnounceDevice,
        MessageType::TextMessage => PlaintextAction::DeliverMessage,
        MessageType::FileRequest => PlaintextAction::RegisterFileRequest,
        MessageType::FileData => PlaintextAction::WriteChunk,
        MessageType::FileComplete => PlaintextAction::VerifyCompletion,
        MessageType::FileCancel => PlaintextAction::DeliverCancel,
        MessageType::FileReject => PlaintextAction::DeliverReject,
        MessageType::Heartbeat => PlaintextAction::NoteHeartbeat,
        _ => PlaintextAction::Ignore,
    }
}

/// The state that follows an event, and what is to be done.
pub open spec fn spec_step(state: ConnectionState, event: ConnectionEvent) -> (
    ConnectionState,
    ConnectionAction,
) {
    match state {
        ConnectionState::Closed => (ConnectionState::Closed, ConnectionAction::Proceed),
        _ => match event {
            ConnectionEvent::EndOfStream => (
                ConnectionState::Closed,
                ConnectionAction::Close(
                    if state == ConnectionState::EncryptedSession || state
                        == ConnectionState::PlaintextLegacy {
                        CloseReason::PeerClosed
                    } else {
                        CloseReason::ReadFailed
                    },
                ),
            ),
            ConnectionEvent::IdleTimeout => (
                ConnectionState::Closed,
                ConnectionAction::Close(CloseReason::IdleTimeout),
            ),
            ConnectionEvent::ReadFailed => (
                ConnectionState::Closed,
                ConnectionAction::Close(CloseReason::ReadFailed),
            ),
            ConnectionEvent::HandlingFailed => (
                ConnectionState::Closed,
                ConnectionAction::Close(CloseReason::HandlingFailed),
            ),
            ConnectionEvent::HandshakeFailed => (
                ConnectionState::Closed,
                ConnectionAction::Close(CloseReason::HandshakeFailed),
            ),
            ConnectionEvent::HandshakeDone => if state == ConnectionState::SecureHandshake {
                (ConnectionState::EncryptedSession, ConnectionAction::AnnounceEncryptedPeer)
            } else {
                (ConnectionState::Closed, ConnectionAction::Close(CloseReason::ProtocolViolation))
            },
            ConnectionEvent::FileStreamDone => if state == ConnectionState::FileStreamReceive {
                (ConnectionState::EncryptedSession, ConnectionAction::Proceed)
            } else {
                (ConnectionState::Closed, ConnectionAction::Close(CloseReason::ProtocolViolation))
            },
            ConnectionEvent::FrameRead(t) => match state {
                ConnectionState::AwaitFirstFrame => if t == MessageType::HelloSecure {
                    (ConnectionState::SecureHandshake, ConnectionAction::RespondToHello)
                } else if spec_is_plaintext_type(t) {
                    (
                        ConnectionState::PlaintextLegacy,
                        ConnectionAction::WarnAndHandlePlaintext(t),
                    )
                } else {
                    (
                        ConnectionState::Closed,
                        ConnectionAction::Close(CloseReason::ProtocolViolation),
                    )
                },
                ConnectionState::EncryptedSession => if t == MessageType::EncryptedMessage {
                    (ConnectionState::EncryptedSession, ConnectionAction::DecryptMessage)
                } else if t == MessageType::FileStreamInit {
                    (ConnectionState::FileStreamReceive, ConnectionAction::BeginFileStream)
                } else if t == MessageType::Heartbeat {
                    (ConnectionState::EncryptedSession, ConnectionAction::NoteHeartbeat)
                } else {
                    (
                        ConnectionState::Closed,
                        ConnectionAction::Close(CloseReason::ProtocolViolation),
                    )
                },
                ConnectionState::FileStreamReceive => if t == MessageType::FileData {
                    (ConnectionState::FileStreamReceive, ConnectionAction::DecryptChunk)
                } else {
                    (
                        ConnectionState::Closed,
                        ConnectionAction::Close(CloseReason::ProtocolViolation),
                    )
                },
                ConnectionState::PlaintextLegacy => if spec_is_plaintext_type(t) {
                    (ConnectionState::PlaintextLegacy, ConnectionAction::HandlePlaintext(t))
                } else {
                    (ConnectionState::PlaintextLegacy, ConnectionAction::Proceed)
                },
                _ => (
                    ConnectionState::Closed,
                    ConnectionAction::Close(CloseReason::ProtocolViolation),
                ),
            },
        },
    }
}

/// The state that follows an event, and what is to be done.
pub fn step(state: ConnectionState, event: ConnectionEvent) -> (r: (
    ConnectionState,
    ConnectionAction,
))
    ensures
        r == spec_step(state, event),
{
    let violation = (
        ConnectionState::Closed,
        ConnectionAction::Close(CloseReason::ProtocolViolation),
    );
    if state == ConnectionState::Closed {
        return (ConnectionState::Closed, ConnectionAction::Proceed);
    }
    match event {
        ConnectionEvent::EndOfStream => {
            let clean = state == ConnectionState::EncryptedSession || state
                == ConnectionState::PlaintextLegacy;
            let reason = if clean {
                CloseReason::PeerClosed
            } else {
                CloseReason::ReadFailed
            };
            (ConnectionState::Closed, ConnectionAction::Close(reason))
        },
        ConnectionEvent::IdleTimeout => (
            ConnectionState::Closed,
            ConnectionAction::Close(CloseReason::IdleTimeout),
        ),
        ConnectionEvent::ReadFailed => (
            ConnectionState::Closed,
            ConnectionAction::Close(CloseReason::ReadFailed),
        ),
        ConnectionEvent::HandlingFailed => (
            ConnectionState::Closed,
            ConnectionAction::Close(CloseReason::HandlingFailed),
        ),
        ConnectionEvent::HandshakeFailed => (
            ConnectionState::Closed,
            ConnectionAction::Close(CloseReason::HandshakeFailed),
        ),
        ConnectionEvent::HandshakeDone => {
            if state == ConnectionState::SecureHandshake {
                (ConnectionState::EncryptedSession, ConnectionAction::AnnounceEncryptedPeer)
            } else {
                violation
            }
        },
        ConnectionEvent::FileStreamDone => {
            if state == ConnectionState::FileStreamReceive {
                (ConnectionState::EncryptedSession, ConnectionAction::Proceed)
            } else {
                violation
            }
        },
        ConnectionEvent::FrameRead(t) => {
            match state {
                ConnectionState::AwaitFirstFrame => {
                    if t == MessageType::HelloSecure {
                        (ConnectionState::SecureHandshake, ConnectionAction::RespondToHello)
                    } else if is_plaintext_type(t) {
                        (
                            ConnectionState::PlaintextLegacy,
                            ConnectionAction::WarnAndHandlePlaintext(t),
                        )
                    } else {
                        violation
                    }
                },
                ConnectionState::EncryptedSession => {
                    if t == MessageType::EncryptedMessage {
                        (ConnectionState::EncryptedSession, ConnectionAction::DecryptMessage)
                    } else if t == MessageType::FileStreamInit {
                        (ConnectionState::FileStreamReceive, ConnectionAction::BeginFileStream)
                    } else if t == MessageType::Heartbeat {
                        (ConnectionState::EncryptedSession, ConnectionAction::NoteHeartbeat)
                    } else {
                        violation
                    }
                },
                ConnectionState::FileStreamReceive => {
                    if t == MessageType::FileData {
                        (ConnectionState::FileStreamReceive, ConnectionAction::DecryptChunk)
                    } else {
                        violation
                    }
                },
                ConnectionState::PlaintextLegacy => {
                    if is_plaintext_type(t) {
                        (ConnectionState::PlaintextLegacy, ConnectionAction::HandlePlaintext(t))
                    } else {
                        (ConnectionState::PlaintextLegacy, ConnectionAction::Proceed)
                    }
                },
                _ => violation,
            }
        },
    }
}

/// The state of a connection after a sequence of events.
pub open spec fn spec_run(state: ConnectionState, events: Seq<ConnectionEvent>)
    -> ConnectionState
    decreases events.len(),
{
    if events.len() == 0 {
        state
    } else {
        spec_run(spec_step(state, events[0]).0, events.subrange(1, events.len() as int))
    }
}

/// A closed connection stays closed, whatever happens.
pub proof fn lemma_closed_is_final(events: Seq<ConnectionEvent>)
    ensures
        spec_run(ConnectionState::Closed, events) == ConnectionState::Closed,
    decreases events.len(),
{
    if events.len() > 0 {
        lemma_closed_is_final(events.subrange(1, events.len() as int));
    }
}

/// Messages are decrypted only in the encrypted session, and chunks only
/// while a file stream is received; a connection enters the encrypted
/// session only from a completed handshake or a finished file stream, and
/// the handshake only on a secure hello as the first frame.
pub proof fn lemma_encryption_needs_handshake(state: ConnectionState, event: ConnectionEvent)
    ensures
        spec_step(state, event).1 == ConnectionAction::DecryptMessage ==> state
            == ConnectionState::EncryptedSession,
        spec_step(state, event).1 == ConnectionAction::DecryptChunk ==> state
            == ConnectionState::FileStreamReceive,
        spec_step(state, event).0 == ConnectionState::EncryptedSession ==> state
            == ConnectionState::EncryptedSession || (state == ConnectionState::SecureHandshake
            && event == ConnectionEvent::HandshakeDone) || (state
            == ConnectionState::FileStreamReceive && event == ConnectionEvent::FileStreamDone),
        spec_step(state, event).0 == ConnectionState::SecureHandshake ==> state
            == ConnectionState::AwaitFirstFrame && event == ConnectionEvent::FrameRead(
            MessageType::HelloSecure,
        ),
        spec_step(state, event).0 == ConnectionState::FileStreamReceive ==> state
            == ConnectionState::FileStreamReceive || state == ConnectionState::EncryptedSession,
{
}

/// What the server has after answering a secure hello.
pub struct SecureAccept {
    /// The response to send before anything else.
    pub response: HelloResponse,
    /// The session with the peer.
    pub session: Session,
    /// The peer's device id.
    pub peer_device_id: String,
}

/// Answers a secure hello with the given keypair: the response carries our
/// identity and the keypair's public key, and the session is derived from
/// the keypair's secret and the hello's public key. Where the hello's
/// public key belongs to a secret `b`, the session is the one that `b`
/// derives from the response: both ends hold the same keys.
pub fn accept_secure_hello_with(hello: HelloSecure, local: &DeviceIdentity, keypair: Keypair) -> (r:
    Result<SecureAccept, CryptoError>)
    requires
        keypair.wf(),
    ensures
        match r {
            Ok(a) => {
                &&& a.peer_device_id == hello.device_id
                &&& a.response.device_id@ == local.device_id@
                &&& a.response.display_name@ == local.display_name@
                &&& a.response.platform@ == local.platform@
                &&& a.response.app_version@ == local.app_version@
                &&& a.response.accepted
                &&& a.response.public_key == keypair.public
                &&& a.session.wf()
                &&& a.session@ == spec_session_of(x25519_spec(keypair.secret@, hello.public_key@))
                &&& forall|b: Seq<u8>|
                    b.len() == 32 && hello.public_key@ == #[trigger] spec_public_key(b)
                        ==> a.session@ == spec_session_of(x25519_spec(b, a.response.public_key@))
            },
            Err(e) => {
                &&& e == CryptoError::KeyDerivationFailed
                &&& spec_session_of(
                    x25519_spec(keypair.secret@, hello.public_key@),
                ).message_key == spec_session_of(
                    x25519_spec(keypair.secret@, hello.public_key@),
                ).file_key
            },
        },
{
    let response = HelloResponse {
        device_id: local.device_id.clone(),
        display_name: local.display_name.clone(),
        platform: local.platform.clone(),
        app_version: local.app_version.clone(),
        public_key: keypair.public_bytes(),
        accepted: true,
    };
    match Session::from_ecdh(keypair.secret, &hello.public_key) {
        Ok(session) => Ok(SecureAccept { response, session, peer_device_id: hello.device_id }),
        Err(e) => Err(e),
    }
}

/// Answers a secure hello with a freshly drawn keypair. Whatever keypair
/// was drawn, the response carries our identity, and a peer whose secret
/// `b` belongs to the hello's public key derives the same session from the
/// response.
pub fn accept_secure_hello(hello: HelloSecure, local: &DeviceIdentity) -> (r: Result<
    SecureAccept,
    CryptoError,
>)
    ensures
        r matches Ok(a) ==> {
            &&& a.peer_device_id == hello.device_id
            &&& a.response.device_id@ == local.device_id@
            &&& a.response.display_name@ == local.display_name@
            &&& a.response.platform@ == local.platform@
            &&& a.response.app_version@ == local.app_version@
            &&& a.response.accepted
            &&& a.session.wf()
            &&& forall|b: Seq<u8>|
                b.len() == 32 && hello.public_key@ == #[trigger] spec_public_key(b) ==> a.session@
                    == spec_session_of(x25519_spec(b, a.response.public_key@))
        },
        r matches Err(e) ==> e == CryptoError::KeyDerivationFailed,
{
    accept_secure_hello_with(hello, local, Keypair::generate())
}

/// The kinds of control message that travel encrypted.
#[derive(Debug, Clone, Copy, PartialEq, Eq, Structural)]
pub enum ControlKind {
    TextMessage,
    FileRequest,
    FileComplete,
    FileCancel,
    FileReject,
}

/// Why an encrypted control message was not routed.
#[derive(Debug, Clone, Copy, PartialEq, Eq, Structural)]
pub enum RoutingError {
    /// The message did not decrypt; a security error is to be raised.
    DecryptionFailed,
    /// The plaintext is not JSON.
    BadJson,
    /// The plaintext has no known type.
    UnknownType,
}

/// The kind that a type tag names.
pub open spec fn spec_control_kind(tag: Seq<char>) -> Option<ControlKind> {
    if tag == "TEXT_MESSAGE"@ {
        Some(ControlKind::TextMessage)
    } else if tag == "FILE_REQUEST"@ {
        Some(ControlKind::FileRequest)
    } else if tag == "FILE_COMPLETE"@ {
        Some(ControlKind::FileComplete)
    } else if tag == "FILE_CANCEL"@ {
        Some(ControlKind::FileCancel)
    } else if tag == "FILE_REJECT"@ {
        Some(ControlKind::FileReject)
    } else {
        None
    }
}

/// The kind that a type tag names.
pub fn control_kind(tag: &str) -> (r: Option<ControlKind>)
    ensures
        r == spec_control_kind(tag@),
{
    let t: String = tag.to_owned();
    if t == "TEXT_MESSAGE".to_owned() {
        Some(ControlKind::TextMessage)
    } else if t == "FILE_REQUEST".to_owned() {
        Some(ControlKind::FileRequest)
    } else if t == "FILE_COMPLETE".to_owned() {
        Some(ControlKind::FileComplete)
    } else if t == "FILE_CANCEL".to_owned() {
        Some(ControlKind::FileCancel)
    } else if t == "FILE_REJECT".to_owned() {
        Some(ControlKind::FileReject)
    } else {
        None
    }
}

/// The name of the event under which a control message is handed on.
pub fn event_name(kind: ControlKind) -> (r: &'static str)
    ensures
        r@ == (match kind {
            ControlKind::TextMessage => "message-received"@,
            ControlKind::FileRequest => "file-request-received"@,
            ControlKind::FileComplete => "transfer-completed"@,
            ControlKind::FileCancel => "file-cancelled"@,
            ControlKind::FileReject => "file-rejected"@,
        }),
{
    match kind {
        ControlKind::TextMessage => "message-received",
        ControlKind::FileRequest => "file-request-received",
        ControlKind::FileComplete => "transfer-completed",
        ControlKind::FileCancel => "file-cancelled",
        ControlKind::FileReject => "file-rejected",
    }
}

/// Where a decrypted control message goes, from the type field that was
/// read from its text: no JSON is `BadJson`; no type, or one that is not
/// known, is `UnknownType`.
pub fn route_by_type_field(field: Option<Option<String>>) -> (r: Result<ControlKind, RoutingError>)
    ensures
        r == spec_route(
            match field {
                Some(Some(tag)) => Some(Some(tag@)),
                Some(None) => Some(None),
                None => None,
            },
        ),
{
    match field {
        None => Err(RoutingError::BadJson),
        Some(None) => Err(RoutingError::UnknownType),
        Some(Some(tag)) => match control_kind(tag.as_str()) {
            Some(kind) => Ok(kind),
            None => Err(RoutingError::UnknownType),
        },
    }
}

/// Where a control message goes, from its type field.
pub open spec fn spec_route(field: Option<Option<Seq<char>>>) -> Result<ControlKind, RoutingError> {
    match field {
        None => Err(RoutingError::BadJson),
        Some(None) => Err(RoutingError::UnknownType),
        Some(Some(tag)) => match spec_control_kind(tag) {
            Some(kind) => Ok(kind),
            None => Err(RoutingError::UnknownType),
        },
    }
}

/// Decrypts an encrypted control message and finds where it goes. A
/// message that does not decrypt is `DecryptionFailed`; otherwise the
/// result is the route of the plaintext's type field, with the plaintext.
pub fn handle_encrypted_message(session: &Session, encrypted: &EncryptedMessagePayload) -> (r:
    Result<(ControlKind, String), RoutingError>)
    ensures
        match spec_decrypt_message(session@.message_key, encrypted.spec_encrypted()) {
            Err(_) => r == Err::<(ControlKind, String), RoutingError>(
                RoutingError::DecryptionFailed,
            ),
            Ok(text) => match spec_route(json_string_field_spec(text, "type"@)) {
                Ok(kind) => r matches Ok((k, t)) && k == kind && t@ == text,
                Err(e) => r == Err::<(ControlKind, String), RoutingError>(e),
            },
        },
{
    let plaintext_json = match decrypt_message(session, encrypted) {
        Ok(text) => text,
        Err(_) => {
            return Err(RoutingError::DecryptionFailed);
        },
    };
    let field = json_string_field(plaintext_json.as_str(), "type");
    match route_by_type_field(field) {
        Ok(kind) => Ok((kind, plaintext_json)),
        Err(e) => Err(e),
    }
}

/// What handling the payload of an encrypted-message frame yields: a
/// payload that is not the JSON text of an envelope is `BadJson`;
/// otherwise the envelope is decrypted and routed.
pub open spec fn spec_handle_encrypted_frame(key: Seq<u8>, payload: Seq<u8>) -> Result<
    (ControlKind, Seq<char>),
    RoutingError,
> {
    if !valid_utf8(payload) {
        Err(RoutingError::BadJson)
    } else {
        match spec_envelope_from_json(decode_utf8(payload)) {
            None => Err(RoutingError::BadJson),
            Some(envelope) => match spec_decrypt_message(key, envelope) {
                Err(_) => Err(RoutingError::DecryptionFailed),
                Ok(text) => match spec_route(json_string_field_spec(text, "type"@)) {
                    Ok(kind) => Ok((kind, text)),
                    Err(e) => Err(e),
                },
            },
        }
    }
}

/// Handles the payload of an encrypted-message frame: reads the envelope,
/// decrypts it and finds where the plaintext goes.
pub fn handle_encrypted_frame(session: &Session, payload: &[u8]) -> (r: Result<
    (ControlKind, String),
    RoutingError,
>)
    ensures
        match spec_handle_encrypted_frame(session@.message_key, payload@) {
            Ok((kind, text)) => r matches Ok((k, t)) && k == kind && t@ == text,
            Err(e) => r == Err::<(ControlKind, String), RoutingError>(e),
        },
{
    let bytes = copy_range(payload, 0, payload.len());
    assert(bytes@ =~= payload@);
    let text = match string_from_utf8(bytes) {
        Some(t) => t,
        None => {
            return Err(RoutingError::BadJson);
        },
    };
    let envelope = match EncryptedMessagePayload::from_json(text.as_str()) {
        Ok(e) => e,
        Err(_) => {
            return Err(RoutingError::BadJson);
        },
    };
    handle_encrypted_message(session, &envelope)
}

/// The header and the chunk of a plaintext file-data frame.
pub fn parse_file_data(payload: &[u8]) -> (r: Result<(FileDataHeader, Vec<u8>), ProtocolError>)
    ensures
        match r {
            Ok((h, chunk)) => spec_decode_header(payload@) matches Some((hv, used)) && h@ == hv
                && chunk@ == payload@.subrange(used, payload@.len() as int),
            Err(e) => e == ProtocolError::BadBinaryHeader && spec_decode_header(payload@) is None,
        },
{
    match FileDataHeader::decode(payload) {
        Ok((header, header_size)) => {
            let chunk = copy_range(payload, header_size, payload.len());
            Ok((header, chunk))
        },
        Err(e) => Err(e),
    }
}

/// Receiver of one encrypted file stream: the cipher, the announced size
/// and the number of bytes received so far.
pub struct FileStreamReceiver {
    cipher: FileStreamCipher,
    file_size: u64,
    total_received: u64,
}

impl FileStreamReceiver {
    /// The cipher and its position.
    pub closed spec fn cipher(&self) -> FileStreamCipherView {
        self.cipher@
    }

    /// The size that the sender announced.
    pub closed spec fn file_size(&self) -> u64 {
        self.file_size
    }

    /// The number of bytes received so far.
    pub closed spec fn total_received(&self) -> u64 {
        self.total_received
    }

    /// Whether the cipher stands where the received bytes end.
    pub closed spec fn wf(&self) -> bool {
        self.cipher@.position == self.total_received
    }

    /// A receiver for the stream that `init` announces.
    pub fn begin(session: &Session, init: &FileStreamInit) -> (r: FileStreamReceiver)
        ensures
            r.wf(),
            r.cipher() == (FileStreamCipherView {
                key: session@.file_key,
                iv: init.iv@,
                position: 0,
            }),
            r.file_size() == init.file_size,
            r.total_received() == 0,
    {
        FileStreamReceiver {
            cipher: session.create_file_decryptor(&init.iv),
            file_size: init.file_size,
            total_received: 0,
        }
    }

    /// Whether as many bytes have been received as were announced.
    pub fn is_complete(&self) -> (r: bool)
        ensures
            r == (self.total_received() >= self.file_size()),
    {
        self.total_received >= self.file_size
    }

    /// The number of bytes received so far.
    pub fn received(&self) -> (r: u64)
        ensures
            r == self.total_received(),
    {
        self.total_received
    }

    /// Takes the next frame of the stream. A frame that is not file data is
    /// `UnexpectedMessageType`; one that would take the stream beyond the
    /// largest offset is `OversizedFrame`; in both cases nothing changes.
    /// Otherwise the whole payload is one chunk of ciphertext, and the
    /// result is its plaintext.
    pub fn receive_frame(&mut self, frame: &Frame) -> (r: Result<Vec<u8>, ProtocolError>)
        requires
            old(self).wf(),
        ensures
            final(self).wf(),
            final(self).file_size() == old(self).file_size(),
            if frame.message_type != MessageType::FileData {
                r == Err::<Vec<u8>, ProtocolError>(ProtocolError::UnexpectedMessageType) && *final(self) == *old(self)
            } else if old(self).total_received() + frame.payload@.len() > u64::MAX {
                r == Err::<Vec<u8>, ProtocolError>(ProtocolError::OversizedFrame) && *final(self)
                    == *old(self)
            } else {
                &&& r matches Ok(chunk) && chunk@ == spec_ctr_xor(
                    old(self).cipher().key,
                    old(self).cipher().iv,
                    old(self).total_received() as int,
                    frame.payload@,
                )
                &&& final(self).total_received() == old(self).total_received()
                    + frame.payload@.len()
                &&& final(self).cipher() == (FileStreamCipherView {
                    position: old(self).cipher().position + frame.payload@.len(),
                    ..old(self).cipher()
                })
            },
    {
        if frame.message_type != MessageType::FileData {
            return Err(ProtocolError::UnexpectedMessageType);
        }
        let n: usize = frame.payload.len();
        if n as u64 > u64::MAX - self.total_received {
            return Err(ProtocolError::OversizedFrame);
        }
        let chunk = self.cipher.process(frame.payload.as_slice());
        self.total_received = self.total_received + n as u64;
        Ok(chunk)
    }
}

} // verus!
