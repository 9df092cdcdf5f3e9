//! Wire protocol: length-prefixed, typed frames.
//!
//! A frame is a four-byte big-endian payload length, one message-type byte
//! and the payload. File data travels as a compact binary header followed
//! by raw bytes; every other payload is JSON text.

use vstd::prelude::*;
use crate::bytes::{
    copy_range, extend_bytes, lemma_u32_be_roundtrip, lemma_u64_be_roundtrip, push_u32_be,
    push_u64_be, read_u32_be, read_u64_be, spec_read_u32_be, spec_read_u64_be, spec_u32_be,
    spec_u64_be,
};
use crate::outside_std::string_from_utf8;
use vstd::utf8::{decode_utf8, encode_utf8, encode_utf8_decode_utf8, encode_utf8_valid_utf8, valid_utf8};

verus! {

/// Version byte announced in plaintext hello messages.
pub const PROTOCOL_VERSION: u8 = 2;

/// Largest payload a frame may carry: 100 MiB.
pub const MAX_PAYLOAD_SIZE: u32 = 104_857_600;

/// Ways in which bytes from the wire can fail to be a protocol value.
#[derive(Debug, Clone, Copy, PartialEq, Eq, Structural)]
pub enum ProtocolError {
    /// The length prefix announces more than `MAX_PAYLOAD_SIZE` bytes.
    OversizedFrame,
    /// The type byte is not one of the known codes.
    UnknownMessageType,
    /// The frame is well formed but not allowed at this point of the exchange.
    UnexpectedMessageType,
    /// A JSON payload could not be read.
    BadJson,
    /// The binary header of a file-data payload is malformed.
    BadBinaryHeader,
    /// The bytes end before the frame does.
    ShortRead,
}

/// The closed set of message types.
#[derive(Debug, Clone, Copy, PartialEq, Eq, Structural)]
pub enum MessageType {
    Hello,
    TextMessage,
    FileRequest,
    FileData,
    FileAck,
    FileComplete,
    FileCancel,
    FileReject,
    Heartbeat,
    Error,
    HelloSecure,
    HelloResponse,
    EncryptedMessage,
    FileStreamInit,
}

/// The message type that a wire code stands for, if any.
pub open spec fn spec_message_type_from_u8(value: u8) -> Option<MessageType> {
    if value == 0x01 {
        Some(MessageType::Hello)
    } else if value == 0x02 {
        Some(MessageType::TextMessage)
    } else if value == 0x03 {
        Some(MessageType::FileRequest)
    } else if value == 0x04 {
        Some(MessageType::FileData)
    } else if value == 0x05 {
        Some(MessageType::FileAck)
    } else if value == 0x06 {
        Some(MessageType::FileComplete)
    } else if value == 0x07 {
        Some(MessageType::FileCancel)
    } else if value == 0x08 {
        Some(MessageType::FileReject)
    } else if value == 0x09 {
        Some(MessageType::Heartbeat)
    } else if value == 0x0A {
        Some(MessageType::Error)
    } else if value == 0x10 {
        Some(MessageType::HelloSecure)
    } else if value == 0x11 {
        Some(MessageType::HelloResponse)
    } else if value == 0x12 {
        Some(MessageType::EncryptedMessage)
    } else if value == 0x13 {
        Some(MessageType::FileStreamInit)
    } else {
        None
    }
}

impl MessageType {
    /// The wire code of this message type.
    pub open spec fn spec_code(self) -> u8 {
        match self {
            MessageType::Hello => 0x01,
            MessageType::TextMessage => 0x02,
            MessageType::FileRequest => 0x03,
            MessageType::FileData => 0x04,
            MessageType::FileAck => 0x05,
            MessageType::FileComplete => 0x06,
            MessageType::FileCancel => 0x07,
            MessageType::FileReject => 0x08,
            MessageType::Heartbeat => 0x09,
            MessageType::Error => 0x0A,
            MessageType::HelloSecure => 0x10,
            MessageType::HelloResponse => 0x11,
            MessageType::EncryptedMessage => 0x12,
            MessageType::FileStreamInit => 0x13,
        }
    }

    /// The message type with wire code `value`; `None` for every other byte.
    pub fn from_u8(value: u8) -> (r: Option<MessageType>)
        ensures
            r == spec_message_type_from_u8(value),
            r matches Some(t) ==> t.spec_code() == value,
    {
        match value {
            0x01 => Some(MessageType::Hello),
            0x02 => Some(MessageType::TextMessage),
            0x03 => Some(MessageType::FileRequest),
            0x04 => Some(MessageType::FileData),
            0x05 => Some(MessageType::FileAck),
            0x06 => Some(MessageType::FileComplete),
            0x07 => Some(MessageType::FileCancel),
            0x08 => Some(MessageType::FileReject),
            0x09 => Some(MessageType::Heartbeat),
            0x0A => Some(MessageType::Error),
            0x10 => Some(MessageType::HelloSecure),
            0x11 => Some(MessageType::HelloResponse),
            0x12 => Some(MessageType::EncryptedMessage),
            0x13 => Some(MessageType::FileStreamInit),
            _ => None,
        }
    }

    /// The wire code of this message type.
    pub fn code(self) -> (r: u8)
        ensures
            r == self.spec_code(),
            spec_message_type_from_u8(r) == Some(self),
    {
        match self {
            MessageType::Hello => 0x01,
            MessageType::TextMessage => 0x02,
            MessageType::FileRequest => 0x03,
            MessageType::FileData => 0x04,
            MessageType::FileAck => 0x05,
            MessageType::FileComplete => 0x06,
            MessageType::FileCancel => 0x07,
            MessageType::FileReject => 0x08,
            MessageType::Heartbeat => 0x09,
            MessageType::Error => 0x0A,
            MessageType::HelloSecure => 0x10,
            MessageType::HelloResponse => 0x11,
            MessageType::EncryptedMessage => 0x12,
            MessageType::FileStreamInit => 0x13,
        }
    }
}

/// One unit of the wire protocol.
#[derive(Debug, Clone)]
pub struct Frame {
    pub message_type: MessageType,
    pub payload: Vec<u8>,
}

/// What a frame is: its type and its payload bytes.
pub struct FrameView {
    pub message_type: MessageType,
    pub payload: Seq<u8>,
}

impl View for Frame {
    type V = FrameView;

    open spec fn view(&self) -> FrameView {
        FrameView { message_type: self.message_type, payload: self.payload@ }
    }
}

/// The bytes that carry a frame: length prefix, type code, payload.
pub open spec fn spec_encode_frame(f: FrameView) -> Seq<u8>
    recommends
        f.payload.len() <= u32::MAX,
{
    spec_u32_be(f.payload.len() as u32) + seq![f.message_type.spec_code()] + f.payload
}

/// What reading one frame from the front of `data` yields: the frame and the
/// number of bytes it occupies, or the reason why there is none.
pub open spec fn spec_decode_frame(data: Seq<u8>) -> Result<(FrameView, int), ProtocolError> {
    if data.len() < 4 {
        Err(ProtocolError::ShortRead)
    } else if spec_read_u32_be(data, 0) > MAX_PAYLOAD_SIZE {
        Err(ProtocolError::OversizedFrame)
    } else if data.len() < 5 {
        Err(ProtocolError::ShortRead)
    } else if spec_message_type_from_u8(data[4]) is None {
        Err(ProtocolError::UnknownMessageType)
    } else if data.len() < 5 + spec_read_u32_be(data, 0) {
        Err(ProtocolError::ShortRead)
    } else {
        Ok(
            (
                FrameView {
                    message_type: spec_message_type_from_u8(data[4])->Some_0,
                    payload: data.subrange(5, 5 + spec_read_u32_be(data, 0)),
                },
                5 + spec_read_u32_be(data, 0),
            ),
        )
    }
}

impl Frame {
    /// Whether the payload respects the protocol's size limit.
    pub open spec fn wf(&self) -> bool {
        self.payload@.len() <= MAX_PAYLOAD_SIZE
    }

    /// A frame of the given type and payload.
    pub fn new(message_type: MessageType, payload: Vec<u8>) -> (f: Frame)
        ensures
            f.message_type == message_type,
            f.payload == payload,
    {
        Frame { message_type, payload }
    }

    /// The wire bytes of this frame.
    pub fn encode(&self) -> (out: Vec<u8>)
        requires
            self.payload@.len() <= u32::MAX,
        ensures
            out@ == spec_encode_frame(self@),
            out@.len() == 5 + self.payload@.len(),
    {
        let payload_len: u32 = self.payload.len() as u32;
        let mut buffer: Vec<u8> = Vec::new();
        push_u32_be(&mut buffer, payload_len);
        buffer.push(self.message_type.code());
        extend_bytes(&mut buffer, self.payload.as_slice());
        assert(buffer@ =~= spec_encode_frame(self@));
        buffer
    }

    /// Reads one frame from the front of `data`. On success the second
    /// component is the number of bytes the frame occupies.
    pub fn decode(data: &[u8]) -> (r: Result<(Frame, usize), ProtocolError>)
        ensures
            match r {
                Ok((f, used)) => spec_decode_frame(data@) == Ok::<(FrameView, int), ProtocolError>(
                    (f@, used as int),
                ) && f.wf(),
                Err(e) => spec_decode_frame(data@) == Err::<(FrameView, int), ProtocolError>(e),
            },
    {
        if data.len() < 4 {
            return Err(ProtocolError::ShortRead);
        }
        let payload_len: u32 = read_u32_be(data, 0);
        if payload_len > MAX_PAYLOAD_SIZE {
            return Err(ProtocolError::OversizedFrame);
        }
        if data.len() < 5 {
            return Err(ProtocolError::ShortRead);
        }
        let message_type = match MessageType::from_u8(data[4]) {
            Some(t) => t,
            None => {
                return Err(ProtocolError::UnknownMessageType);
            },
        };
        let len: usize = payload_len as usize;
        if data.len() - 5 < len {
            return Err(ProtocolError::ShortRead);
        }
        let payload = copy_range(data, 5, 5 + len);
        Ok((Frame { message_type, payload }, 5 + len))
    }

    /// How many bytes, counted from the start of the frame, must have been
    /// read before more can be said about the frame at the front of
    /// `data`. A result larger than `data` asks for more bytes; a result
    /// within `data` is the size of a complete frame. An error is final:
    /// no further bytes can make the frame acceptable.
    pub fn bytes_needed(data: &[u8]) -> (r: Result<usize, ProtocolError>)
        ensures
            match r {
                Ok(n) => if n <= data@.len() {
                    spec_decode_frame(data@) matches Ok((_, used)) && used == n
                } else {
                    spec_decode_frame(data@) == Err::<(FrameView, int), ProtocolError>(
                        ProtocolError::ShortRead,
                    ) && (n == 4 || n == 5 || n == 5 + spec_read_u32_be(data@, 0))
                },
                Err(e) => e != ProtocolError::ShortRead && spec_decode_frame(data@) == Err::<
                    (FrameView, int),
                    ProtocolError,
                >(e),
            },
    {
        if data.len() < 4 {
            return Ok(4);
        }
        let payload_len: u32 = read_u32_be(data, 0);
        if payload_len > MAX_PAYLOAD_SIZE {
            return Err(ProtocolError::OversizedFrame);
        }
        if data.len() < 5 {
            return Ok(5);
        }
        if MessageType::from_u8(data[4]).is_none() {
            return Err(ProtocolError::UnknownMessageType);
        }
        Ok(5 + payload_len as usize)
    }

    /// Appends the wire bytes of this frame to `writer`.
    pub fn write(&self, writer: &mut Vec<u8>)
        requires
            self.payload@.len() <= u32::MAX,
        ensures
            final(writer)@ == old(writer)@ + spec_encode_frame(self@),
    {
        let encoded = self.encode();
        extend_bytes(writer, encoded.as_slice());
    }
}

/// Decoding the encoding of a frame whose payload is within the size limit
/// gives back the frame, and consumes exactly the encoded bytes.
pub proof fn lemma_frame_roundtrip(f: FrameView)
    requires
        f.payload.len() <= MAX_PAYLOAD_SIZE,
    ensures
        spec_decode_frame(spec_encode_frame(f)) == Ok::<(FrameView, int), ProtocolError>(
            (f, 5 + f.payload.len() as int),
        ),
{
    let n = f.payload.len() as u32;
    let data = spec_encode_frame(f);
    lemma_u32_be_roundtrip(n);
    assert(data.len() == 5 + f.payload.len());
    assert(data[0] == spec_u32_be(n)[0] && data[1] == spec_u32_be(n)[1] && data[2] == spec_u32_be(
        n,
    )[2] && data[3] == spec_u32_be(n)[3]);
    assert(spec_read_u32_be(data, 0) == n);
    assert(data[4] == f.message_type.spec_code());
    lemma_code_roundtrip(f.message_type);
    assert(data.subrange(5, 5 + n) =~= f.payload);
}

/// Every message type is the one its wire code stands for.
pub proof fn lemma_code_roundtrip(t: MessageType)
    ensures
        spec_message_type_from_u8(t.spec_code()) == Some(t),
{
}

/// A frame whose payload is over the size limit encodes to bytes that
/// decoding rejects as oversized, whatever follows the length prefix.
pub proof fn lemma_oversized_rejected(data: Seq<u8>)
    requires
        data.len() >= 4,
        spec_read_u32_be(data, 0) > MAX_PAYLOAD_SIZE,
    ensures
        spec_decode_frame(data) == Err::<(FrameView, int), ProtocolError>(
            ProtocolError::OversizedFrame,
        ),
{
}

/// Header of a file-data payload; the raw chunk follows it.
#[derive(Debug, Clone)]
pub struct FileDataHeader {
    /// Number of bytes of `transfer_id` on the wire.
    pub transfer_id_len: u8,
    pub transfer_id: String,
    /// Byte offset of the chunk in the plaintext file.
    pub offset: u64,
    /// Number of chunk bytes that follow the header.
    pub chunk_size: u32,
}

/// What a file-data header is.
pub struct FileDataHeaderView {
    pub transfer_id_len: u8,
    pub transfer_id: Seq<char>,
    pub offset: u64,
    pub chunk_size: u32,
}

impl View for FileDataHeader {
    type V = FileDataHeaderView;

    open spec fn view(&self) -> FileDataHeaderView {
        FileDataHeaderView {
            transfer_id_len: self.transfer_id_len,
            transfer_id: self.transfer_id@,
            offset: self.offset,
            chunk_size: self.chunk_size,
        }
    }
}

/// The wire bytes of a header: length byte, identifier, offset, chunk size.
pub open spec fn spec_encode_header(h: FileDataHeaderView) -> Seq<u8> {
    seq![h.transfer_id_len] + encode_utf8(h.transfer_id) + spec_u64_be(h.offset) + spec_u32_be(
        h.chunk_size,
    )
}

/// The header at the front of `data` and the number of bytes it occupies;
/// `None` where the bytes end early or the identifier is not UTF-8.
pub open spec fn spec_decode_header(data: Seq<u8>) -> Option<(FileDataHeaderView, int)> {
    if data.len() < 1 {
        None
    } else if data.len() < 1 + data[0] + 12 {
        None
    } else if !valid_utf8(data.subrange(1, 1 + data[0])) {
        None
    } else {
        Some(
            (
                FileDataHeaderView {
                    transfer_id_len: data[0],
                    transfer_id: decode_utf8(data.subrange(1, 1 + data[0])),
                    offset: spec_read_u64_be(data, 1 + data[0]),
                    chunk_size: spec_read_u32_be(data, 1 + data[0] + 8),
                },
                1 + data[0] + 12,
            ),
        )
    }
}

impl FileDataHeader {
    /// Whether the length byte is the identifier's length in bytes.
    pub open spec fn wf(&self) -> bool {
        self.transfer_id_len == encode_utf8(self.transfer_id@).len()
    }

    /// The wire bytes of this header.
    pub fn encode(&self) -> (out: Vec<u8>)
        ensures
            out@ == spec_encode_header(self@),
    {
        let mut buffer: Vec<u8> = Vec::new();
        buffer.push(self.transfer_id_len);
        extend_bytes(&mut buffer, self.transfer_id.as_str().as_bytes());
        push_u64_be(&mut buffer, self.offset);
        push_u32_be(&mut buffer, self.chunk_size);
        assert(buffer@ =~= spec_encode_header(self@));
        buffer
    }

    /// Reads a header from the front of `data`. On success the second
    /// component is the header's size, where the chunk bytes begin.
    pub fn decode(data: &[u8]) -> (r: Result<(FileDataHeader, usize), ProtocolError>)
        ensures
            match r {
                Ok((h, used)) => spec_decode_header(data@) == Some((h@, used as int)),
                Err(e) => e == ProtocolError::BadBinaryHeader && spec_decode_header(data@) is None,
            },
    {
        if data.len() < 1 {
            return Err(ProtocolError::BadBinaryHeader);
        }
        let transfer_id_len: u8 = data[0];
        let id_len: usize = transfer_id_len as usize;
        if data.len() - 1 < id_len {
            return Err(ProtocolError::BadBinaryHeader);
        }
        let id_bytes = copy_range(data, 1, 1 + id_len);
        let transfer_id = match string_from_utf8(id_bytes) {
            Some(s) => s,
            None => {
                return Err(ProtocolError::BadBinaryHeader);
            },
        };
        let mut offset: usize = 1 + id_len;
        if data.len() - offset < 8 {
            return Err(ProtocolError::BadBinaryHeader);
        }
        let file_offset: u64 = read_u64_be(data, offset);
        offset = offset + 8;
        if data.len() - offset < 4 {
            return Err(ProtocolError::BadBinaryHeader);
        }
        let chunk_size: u32 = read_u32_be(data, offset);
        offset = offset + 4;
        Ok((FileDataHeader { transfer_id_len, transfer_id, offset: file_offset, chunk_size }, offset))
    }
}

/// Decoding the encoding of a header whose length byte matches its
/// identifier gives back the header, whatever chunk bytes follow it.
pub proof fn lemma_header_roundtrip(h: FileDataHeaderView, chunk: Seq<u8>)
    requires
        h.transfer_id_len == encode_utf8(h.transfer_id).len(),
    ensures
        spec_decode_header(spec_encode_header(h) + chunk) == Some(
            (h, spec_encode_header(h).len() as int),
        ),
        (spec_encode_header(h) + chunk).subrange(
            spec_encode_header(h).len() as int,
            (spec_encode_header(h) + chunk).len() as int,
        ) == chunk,
{
    let id = encode_utf8(h.transfer_id);
    let n = id.len() as int;
    let data = spec_encode_header(h) + chunk;
    lemma_u64_be_roundtrip(h.offset);
    lemma_u32_be_roundtrip(h.chunk_size);
    encode_utf8_valid_utf8(h.transfer_id);
    encode_utf8_decode_utf8(h.transfer_id);
    assert(spec_encode_header(h).len() == 1 + n + 12);
    assert(data[0] == h.transfer_id_len);
    assert(data.subrange(1, 1 + n) =~= id);
    let o = spec_u64_be(h.offset);
    assert forall|i: int| 0 <= i < 8 implies data[1 + n + i] == o[i] by {}
    assert(spec_read_u32_be(data, 1 + n) == spec_read_u32_be(o, 0));
    assert(spec_read_u32_be(data, 1 + n + 4) == spec_read_u32_be(o, 4));
    assert(spec_read_u64_be(data, 1 + n) == h.offset);
    let c = spec_u32_be(h.chunk_size);
    assert forall|i: int| 0 <= i < 4 implies data[1 + n + 8 + i] == c[i] by {}
    assert(spec_read_u32_be(data, 1 + n + 8) == h.chunk_size);
    assert(data.subrange(spec_encode_header(h).len() as int, data.len() as int) =~= chunk);
}

/// Plaintext hello, sent when a connection is established without a
/// handshake.
#[derive(Debug, Clone)]
pub struct HelloPayload {
    pub protocol_version: u8,
    pub device_id: String,
    pub display_name: String,
    pub platform: String,
    pub app_version: String,
}

/// Text message between devices.
#[derive(Debug, Clone)]
pub struct TextMessagePayload {
    /// `"TEXT_MESSAGE"` unless the sender says otherwise.
    pub msg_type: String,
    pub id: String,
    pub from_device_id: String,
    pub to_device_id: String,
    pub content: String,
    pub timestamp: i64,
    pub thread_id: Option<String>,
}

/// File transfer request with the file's metadata.
#[derive(Debug, Clone)]
pub struct FileRequestPayload {
    /// `"FILE_REQUEST"` unless the sender says otherwise.
    pub msg_type: String,
    pub transfer_id: String,
    pub filename: String,
    pub file_size: u64,
    pub from_device_id: String,
    pub to_device_id: String,
    /// SHA-256 of the whole file, in hexadecimal.
    pub checksum: String,
}

/// Acknowledgment of file data up to an offset.
#[derive(Debug, Clone)]
pub struct FileAckPayload {
    pub transfer_id: String,
    pub offset: u64,
}

/// Notification that every chunk of a transfer has been sent.
#[derive(Debug, Clone)]
pub struct FileCompletePayload {
    /// `"FILE_COMPLETE"` unless the sender says otherwise.
    pub msg_type: String,
    pub transfer_id: String,
    /// SHA-256 of the whole file, in hexadecimal.
    pub checksum: String,
}

/// Cancellation of a transfer.
#[derive(Debug, Clone)]
pub struct FileCancelPayload {
    /// `"FILE_CANCEL"` unless the sender says otherwise.
    pub msg_type: String,
    pub transfer_id: String,
    pub reason: Option<String>,
}

/// Rejection of a transfer request.
#[derive(Debug, Clone)]
pub struct FileRejectPayload {
    /// `"FILE_REJECT"` unless the sender says otherwise.
    pub msg_type: String,
    pub transfer_id: String,
    pub reason: String,
}

/// Keep-alive message.
#[derive(Debug, Clone)]
pub struct HeartbeatPayload {
    pub device_id: String,
    pub timestamp: i64,
}

/// Error notification.
#[derive(Debug, Clone)]
pub struct ErrorPayload {
    pub code: String,
    pub message: String,
}

/// The type tag of a text message when the sender gives none.
pub fn default_text_message_type() -> (r: String)
    ensures
        r@ == "TEXT_MESSAGE"@,
{
    "TEXT_MESSAGE".to_owned()
}

/// The type tag of a file request when the sender gives none.
pub fn default_file_request_type() -> (r: String)
    ensures
        r@ == "FILE_REQUEST"@,
{
    "FILE_REQUEST".to_owned()
}

/// The type tag of a completion notice when the sender gives none.
pub fn default_file_complete_type() -> (r: String)
    ensures
        r@ == "FILE_COMPLETE"@,
{
    "FILE_COMPLETE".to_owned()
}

/// The type tag of a cancellation when the sender gives none.
pub fn default_file_cancel_type() -> (r: String)
    ensures
        r@ == "FILE_CANCEL"@,
{
    "FILE_CANCEL".to_owned()
}

/// The type tag of a rejection when the sender gives none.
pub fn default_file_reject_type() -> (r: String)
    ensures
        r@ == "FILE_REJECT"@,
{
    "FILE_REJECT".to_owned()
}

} // verus!
