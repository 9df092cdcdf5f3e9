//! The client side: the pool of connections and what is sent on them.
//!
//! A connection to a device is dialled once and reused. While a dial is
//! under way, further requests for the same device wait for it. A send
//! that fails evicts the connection and is tried once more on a new one.

use crate::crypto::message_crypto::{
    encrypt_message, spec_envelope_json, EncryptedMessagePayload,
};
use crate::crypto::session::{spec_seal_message, Session};
use crate::crypto::MAX_MESSAGE_SIZE;
use crate::bytes::copy_range;
use crate::outside_std::string_from_utf8;
use crate::protocol::{Frame, MessageType, ProtocolError};
use crate::registry::Registry;
use vstd::prelude::*;
use vstd::utf8::{decode_utf8, encode_utf8, valid_utf8};

verus! {

/// Seconds after which a dial is given up.
pub const CONNECT_TIMEOUT_SECS: u64 = 5;

/// Seconds between keep-alive probes on a dialled socket.
pub const KEEPALIVE_INTERVAL_SECS: u64 = 30;

/// Size asked for the send buffer of a dialled socket: 4 MiB.
pub const SEND_BUFFER_SIZE: usize = 4_194_304;

/// Size asked for the receive buffer of a dialled socket: 4 MiB.
pub const RECV_BUFFER_SIZE: usize = 4_194_304;

/// Ways in which the transport can fail.
#[derive(Debug, Clone, Copy, PartialEq, Eq, Structural)]
pub enum TransportError {
    ConnectTimeout,
    ConnectRefused,
    SendFailed,
    ReadFailed,
    IdleTimeout,
}

/// Why no frame could be built for a text message.
#[derive(Debug, Clone, Copy, PartialEq, Eq, Structural)]
pub enum TextMessageError {
    /// There is no ready connection to the device.
    NotConnected,
    /// The connection is encrypted and the payload is not UTF-8 text.
    InvalidUtf8,
    /// The connection is encrypted and the payload is too large.
    MessageTooLarge,
}

/// A connection in the pool.
#[derive(Clone, Copy)]
pub enum PoolEntry {
    /// The connection is being dialled.
    Dialing,
    /// The connection is established, with the session of its handshake,
    /// or without one where the handshake failed and the connection fell
    /// back to plaintext.
    Ready(Option<Session>),
}

/// What a request for a connection is answered with.
#[derive(Debug, Clone, Copy, PartialEq, Eq, Structural)]
pub enum PoolDecision {
    /// The connection exists; use it.
    Reuse,
    /// There is no connection; the caller dials, and reports how it went.
    Dial,
    /// Another caller is dialling; wait for it.
    Wait,
}

/// The pool after a request for a connection to a device, and the answer.
pub open spec fn spec_get_connection(pool: Map<Seq<char>, PoolEntry>, id: Seq<char>) -> (
    Map<Seq<char>, PoolEntry>,
    PoolDecision,
) {
    if !pool.contains_key(id) {
        (pool.insert(id, PoolEntry::Dialing), PoolDecision::Dial)
    } else if pool[id] is Dialing {
        (pool, PoolDecision::Wait)
    } else {
        (pool, PoolDecision::Reuse)
    }
}

/// The number of dials that `n` requests for one device lead to, when no
/// dial fails and no connection is evicted in between.
pub open spec fn spec_dials(pool: Map<Seq<char>, PoolEntry>, id: Seq<char>, n: nat) -> nat
    decreases n,
{
    if n == 0 {
        0
    } else {
        let (next, decision) = spec_get_connection(pool, id);
        spec_dials(next, id, (n - 1) as nat) + if decision == PoolDecision::Dial {
            1nat
        } else {
            0nat
        }
    }
}

/// Any number of requests for a connection to one device lead to at most
/// one dial, and to none where the device is in the pool already.
pub proof fn lemma_at_most_one_dial(pool: Map<Seq<char>, PoolEntry>, id: Seq<char>, n: nat)
    ensures
        spec_dials(pool, id, n) <= 1,
        pool.contains_key(id) ==> spec_dials(pool, id, n) == 0,
    decreases n,
{
    if n > 0 {
        let (next, decision) = spec_get_connection(pool, id);
        lemma_at_most_one_dial(next, id, (n - 1) as nat);
        assert(next.contains_key(id));
    }
}

/// Where a send stands.
#[derive(Debug, Clone, Copy, PartialEq, Eq, Structural)]
pub enum SendState {
    /// The frame has not been written yet.
    FirstAttempt,
    /// The first write failed; the frame is written once more.
    Retry,
    /// The send is over.
    Done,
}

/// What follows an attempt to write a frame.
#[derive(Debug, Clone, Copy, PartialEq, Eq, Structural)]
pub enum SendAction {
    /// The frame is sent.
    Finished,
    /// Evict the connection, dial again and write the frame once more.
    EvictAndRetry,
    /// The send has failed for good.
    GiveUp(TransportError),
    /// The send was over before.
    Nothing,
}

/// The state after an attempt to write, and what follows.
pub open spec fn spec_after_send(state: SendState, written: bool) -> (SendState, SendAction) {
    match state {
        SendState::Done => (SendState::Done, SendAction::Nothing),
        _ => if written {
            (SendState::Done, SendAction::Finished)
        } else if state == SendState::FirstAttempt {
            (SendState::Retry, SendAction::EvictAndRetry)
        } else {
            (SendState::Done, SendAction::GiveUp(TransportError::SendFailed))
        },
    }
}

/// The state after an attempt to write, and what follows.
pub fn after_send(state: SendState, written: bool) -> (r: (SendState, SendAction))
    ensures
        r == spec_after_send(state, written),
{
    match state {
        SendState::Done => (SendState::Done, SendAction::Nothing),
        SendState::FirstAttempt => {
            if written {
                (SendState::Done, SendAction::Finished)
            } else {
                (SendState::Retry, SendAction::EvictAndRetry)
            }
        },
        SendState::Retry => {
            if written {
                (SendState::Done, SendAction::Finished)
            } else {
                (SendState::Done, SendAction::GiveUp(TransportError::SendFailed))
            }
        },
    }
}

/// The number of retries in a send whose attempts go as `outcomes` say.
pub open spec fn spec_retries(state: SendState, outcomes: Seq<bool>) -> nat
    decreases outcomes.len(),
{
    if outcomes.len() == 0 {
        0
    } else {
        let (next, action) = spec_after_send(state, outcomes[0]);
        spec_retries(next, outcomes.subrange(1, outcomes.len() as int)) + if action
            == SendAction::EvictAndRetry {
            1nat
        } else {
            0nat
        }
    }
}

/// A send is retried at most once, however its attempts go, and not at
/// all after its first attempt.
pub proof fn lemma_at_most_one_retry(state: SendState, outcomes: Seq<bool>)
    ensures
        spec_retries(state, outcomes) <= 1,
        state != SendState::FirstAttempt ==> spec_retries(state, outcomes) == 0,
    decreases outcomes.len(),
{
    if outcomes.len() > 0 {
        let (next, action) = spec_after_send(state, outcomes[0]);
        lemma_at_most_one_retry(next, outcomes.subrange(1, outcomes.len() as int));
    }
}

/// The payload of the frame that carries an encrypted text: the JSON text
/// of the envelope that key and nonce make of the text.
pub open spec fn spec_encrypted_frame_payload(key: Seq<u8>, nonce: Seq<u8>, text: Seq<char>) -> Seq<
    u8,
> {
    encode_utf8(spec_envelope_json(spec_seal_message(key, nonce, encode_utf8(text))))
}

/// The frame that carries an envelope.
pub fn encrypted_message_frame(envelope: &EncryptedMessagePayload) -> (f: Frame)
    ensures
        f.message_type == MessageType::EncryptedMessage,
        f.payload@ == encode_utf8(spec_envelope_json(envelope.spec_encrypted())),
{
    let json = envelope.to_json();
    let bytes = json.as_str().as_bytes();
    let payload = copy_range(bytes, 0, bytes.len());
    assert(payload@ =~= bytes@);
    Frame::new(MessageType::EncryptedMessage, payload)
}

/// The frame for a text message on a connection. Without a session the
/// payload travels as it is, in a plaintext text-message frame. With a
/// session the payload must be UTF-8 text of at most `MAX_MESSAGE_SIZE`
/// bytes; it is encrypted under the session with a fresh nonce, and the
/// frame carries the envelope.
pub fn text_message_frame(session: Option<&Session>, payload: Vec<u8>) -> (r: Result<
    Frame,
    TextMessageError,
>)
    ensures
        match session {
            None => r matches Ok(f) && f.message_type == MessageType::TextMessage && f.payload
                == payload,
            Some(s) => if !valid_utf8(payload@) {
                r == Err::<Frame, TextMessageError>(TextMessageError::InvalidUtf8)
            } else if payload@.len() > MAX_MESSAGE_SIZE {
                r == Err::<Frame, TextMessageError>(TextMessageError::MessageTooLarge)
            } else {
                r matches Ok(f) && f.message_type == MessageType::EncryptedMessage && exists|
                    nonce: Seq<u8>,
                |
                    nonce.len() == 12 && f.payload@ == #[trigger] spec_encrypted_frame_payload(
                        s@.message_key,
                        nonce,
                        decode_utf8(payload@),
                    )
            },
        },
{
    match session {
        None => Ok(Frame::new(MessageType::TextMessage, payload)),
        Some(s) => {
            let ghost bytes = payload@;
            let text = match string_from_utf8(payload) {
                Some(t) => t,
                None => {
                    return Err(TextMessageError::InvalidUtf8);
                },
            };
            proof {
                vstd::utf8::decode_utf8_encode_utf8(bytes);
            }
            let envelope = match encrypt_message(s, text.as_str()) {
                Ok(e) => e,
                Err(_) => {
                    return Err(TextMessageError::MessageTooLarge);
                },
            };
            let frame = encrypted_message_frame(&envelope);
            assert(frame.payload@ == spec_encrypted_frame_payload(
                s@.message_key,
                envelope.iv@,
                decode_utf8(bytes),
            ));
            Ok(frame)
        },
    }
}

/// Checks the frame that answers a secure hello: it must be a hello
/// response.
pub fn check_response_frame(frame: &Frame) -> (r: Result<(), ProtocolError>)
    ensures
        r == (if frame.message_type == MessageType::HelloResponse {
            Ok::<(), ProtocolError>(())
        } else {
            Err::<(), ProtocolError>(ProtocolError::UnexpectedMessageType)
        }),
{
    if frame.message_type == MessageType::HelloResponse {
        Ok(())
    } else {
        Err(ProtocolError::UnexpectedMessageType)
    }
}

/// The connections of the local device, by the peer's device id.
pub struct TcpClient {
    connections: Registry<PoolEntry>,
}

impl TcpClient {
    /// The pool.
    pub closed spec fn pool(&self) -> Map<Seq<char>, PoolEntry> {
        self.connections@
    }

    /// Whether the pool is well formed.
    pub closed spec fn wf(&self) -> bool {
        self.connections.wf()
    }

    /// A client with no connection.
    pub fn new() -> (c: TcpClient)
        ensures
            c.wf(),
            c.pool() == Map::<Seq<char>, PoolEntry>::empty(),
    {
        TcpClient { connections: Registry::new() }
    }

    /// Answers a request for a connection to a device: an established
    /// connection is reused; with none, the device is marked as being
    /// dialled and the caller dials; while it is being dialled, the caller
    /// waits.
    pub fn get_connection(&mut self, device_id: &str) -> (r: PoolDecision)
        requires
            old(self).wf(),
        ensures
            final(self).wf(),
            (final(self).pool(), r) == spec_get_connection(old(self).pool(), device_id@),
    {
        let found: Option<bool> = match self.connections.get(device_id) {
            Some(PoolEntry::Dialing) => Some(true),
            Some(PoolEntry::Ready(_)) => Some(false),
            None => None,
        };
        match found {
            Some(true) => PoolDecision::Wait,
            Some(false) => PoolDecision::Reuse,
            None => {
                self.connections.insert(device_id, PoolEntry::Dialing);
                PoolDecision::Dial
            },
        }
    }

    /// Records that the dial to a device succeeded: its connection is
    /// ready, with the session of the handshake, or without one where the
    /// handshake failed.
    pub fn connection_established(&mut self, device_id: &str, session: Option<Session>)
        requires
            old(self).wf(),
        ensures
            final(self).wf(),
            final(self).pool() == old(self).pool().insert(device_id@, PoolEntry::Ready(session)),
    {
        self.connections.insert(device_id, PoolEntry::Ready(session));
    }

    /// Records that the dial to a device failed: the device leaves the
    /// pool, and the next request dials again.
    pub fn connection_failed(&mut self, device_id: &str)
        requires
            old(self).wf(),
        ensures
            final(self).wf(),
            final(self).pool() == old(self).pool().remove(device_id@),
    {
        let _ = self.connections.remove(device_id);
    }

    /// The session of the connection to a device, if the connection is
    /// ready and has one.
    pub fn session(&self, device_id: &str) -> (r: Option<Session>)
        requires
            self.wf(),
        ensures
            r == (if self.pool().contains_key(device_id@) {
                match self.pool()[device_id@] {
                    PoolEntry::Ready(s) => s,
                    PoolEntry::Dialing => None,
                }
            } else {
                None
            }),
    {
        match self.connections.get(device_id) {
            Some(PoolEntry::Ready(s)) => *s,
            _ => None,
        }
    }

    /// The frame for a text message to a device: encrypted where the
    /// connection has a session, plaintext where it has none. Without a
    /// ready connection the error is `NotConnected`.
    pub fn send_text_message(&self, device_id: &str, payload: Vec<u8>) -> (r: Result<
        Frame,
        TextMessageError,
    >)
        requires
            self.wf(),
        ensures
            if !self.pool().contains_key(device_id@) || self.pool()[device_id@] is Dialing {
                r == Err::<Frame, TextMessageError>(TextMessageError::NotConnected)
            } else {
                match self.pool()[device_id@]->Ready_0 {
                    None => r matches Ok(f) && f.message_type == MessageType::TextMessage
                        && f.payload == payload,
                    Some(s) => if !valid_utf8(payload@) {
                        r == Err::<Frame, TextMessageError>(TextMessageError::InvalidUtf8)
                    } else if payload@.len() > MAX_MESSAGE_SIZE {
                        r == Err::<Frame, TextMessageError>(TextMessageError::MessageTooLarge)
                    } else {
                        r matches Ok(f) && f.message_type == MessageType::EncryptedMessage
                            && exists|nonce: Seq<u8>|
                            nonce.len() == 12 && f.payload@
                                == #[trigger] spec_encrypted_frame_payload(
                                s@.message_key,
                                nonce,
                                decode_utf8(payload@),
                            )
                    },
                }
            },
    {
        match self.connections.get(device_id) {
            Some(PoolEntry::Ready(Some(s))) => text_message_frame(Some(s), payload),
            Some(PoolEntry::Ready(None)) => text_message_frame(None, payload),
            _ => Err(TextMessageError::NotConnected),
        }
    }

    /// The frame of a file request.
    pub fn send_file_request(payload: Vec<u8>) -> (f: Frame)
        ensures
            f.message_type == MessageType::FileRequest,
            f.payload == payload,
    {
        Frame::new(MessageType::FileRequest, payload)
    }

    /// The frame of a file-data payload.
    pub fn send_file_data(payload: Vec<u8>) -> (f: Frame)
        ensures
            f.message_type == MessageType::FileData,
            f.payload == payload,
    {
        Frame::new(MessageType::FileData, payload)
    }

    /// The frame of a file acknowledgment.
    pub fn send_file_ack(payload: Vec<u8>) -> (f: Frame)
        ensures
            f.message_type == MessageType::FileAck,
            f.payload == payload,
    {
        Frame::new(MessageType::FileAck, payload)
    }

    /// The frame of a completion notice.
    pub fn send_file_complete(payload: Vec<u8>) -> (f: Frame)
        ensures
            f.message_type == MessageType::FileComplete,
            f.payload == payload,
    {
        Frame::new(MessageType::FileComplete, payload)
    }

    /// The frame of a cancellation.
    pub fn send_file_cancel(payload: Vec<u8>) -> (f: Frame)
        ensures
            f.message_type == MessageType::FileCancel,
            f.payload == payload,
    {
        Frame::new(MessageType::FileCancel, payload)
    }

    /// The frame of a rejection.
    pub fn send_file_reject(payload: Vec<u8>) -> (f: Frame)
        ensures
            f.message_type == MessageType::FileReject,
            f.payload == payload,
    {
        Frame::new(MessageType::FileReject, payload)
    }

    /// Takes the outcome of an attempt to write a frame to a device. After
    /// a first attempt that failed, the device's connection is evicted and
    /// the frame is to be written once more on a new one; after a second
    /// failure the send fails with `SendFailed`.
    pub fn send_frame(&mut self, device_id: &str, state: SendState, written: bool) -> (r: (
        SendState,
        SendAction,
    ))
        requires
            old(self).wf(),
        ensures
            final(self).wf(),
            r == spec_after_send(state, written),
            final(self).pool() == (if r.1 == SendAction::EvictAndRetry {
                old(self).pool().remove(device_id@)
            } else {
                old(self).pool()
            }),
    {
        let r = after_send(state, written);
        if r.1 == SendAction::EvictAndRetry {
            let _ = self.close_connection(device_id);
        }
        r
    }

    /// Closes the connection to a device. Returns whether there was one.
    pub fn close_connection(&mut self, device_id: &str) -> (r: bool)
        requires
            old(self).wf(),
        ensures
            final(self).wf(),
            final(self).pool() == old(self).pool().remove(device_id@),
            r == old(self).pool().contains_key(device_id@),
    {
        self.connections.remove(device_id).is_some()
    }

    /// Closes every connection. Returns how many there were.
    pub fn close_all(&mut self) -> (r: usize)
        requires
            old(self).wf(),
        ensures
            final(self).wf(),
            final(self).pool() == Map::<Seq<char>, PoolEntry>::empty(),
            r == old(self).pool().dom().len(),
    {
        let count = self.connections.len();
        self.connections.clear();
        count
    }

    /// The number of connections, those being dialled included.
    pub fn connection_count(&self) -> (r: usize)
        requires
            self.wf(),
        ensures
            r == self.pool().dom().len(),
    {
        self.connections.len()
    }

    /// Whether the device is in the pool.
    pub fn is_connected(&self, device_id: &str) -> (r: bool)
        requires
            self.wf(),
        ensures
            r == self.pool().contains_key(device_id@),
    {
        self.connections.contains_key(device_id)
    }
}

} // verus!
