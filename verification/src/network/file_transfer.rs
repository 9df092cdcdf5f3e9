//! The file transfer engine: the table of transfers and the rules by which
//! a transfer moves from one status to the next.
//!
//! The sender streams a file as file-data frames of at most `CHUNK_SIZE`
//! bytes, each with its offset in a binary header. The receiver writes each
//! chunk at its offset and, at the end, compares the SHA-256 of what it
//! wrote with the checksum that the sender announced.

use crate::bytes::{copy_range, extend_bytes};
use crate::crypto::primitives::{new_uuid_v4, sha256_hex, sha256_hex_spec};
use crate::outside_std::str_concat;
use crate::protocol::{
    spec_decode_header, spec_encode_header, FileCompletePayload, FileDataHeader,
    FileDataHeaderView, FileRequestPayload, Frame, MessageType,
};
use crate::registry::Registry;
use vstd::prelude::*;
use vstd::utf8::encode_utf8;

verus! {

/// Chunk size for file transfers: 256 KiB.
pub const CHUNK_SIZE: usize = 262_144;

/// Maximum number of transfers that may be active at once.
pub const MAX_CONCURRENT_TRANSFERS: usize = 3;

/// Status of a file transfer.
#[derive(Debug, Clone, Copy, PartialEq, Eq, Structural)]
pub enum TransferStatus {
    Pending,
    InProgress,
    Paused,
    Completed,
    Failed,
    Cancelled,
    AwaitingAcceptance,
}

/// Ways in which an operation of the engine can fail.
#[derive(Debug, Clone, Copy, PartialEq, Eq, Structural)]
pub enum TransferError {
    /// The file to send does not exist.
    FileNotFound,
    /// No transfer has the given id.
    TransferNotFound,
    /// The transfer is not in the status that the operation needs.
    WrongTransferState,
    /// The received file does not have the announced checksum.
    ChecksumMismatch,
    /// The limit of active transfers is reached.
    TooManyActiveTransfers,
    /// No address of the peer was given.
    MissingPeerAddress,
    /// The transfer has no file path yet.
    MissingFilePath,
    /// The file-data payload does not start with a well-formed header, or
    /// its chunk would end beyond the largest file offset.
    BadDataHeader,
    /// The file name could lead outside the transfer directory.
    UnsafeFilename,
}

/// File transfer metadata.
#[derive(Debug, Clone)]
pub struct FileTransfer {
    pub id: String,
    pub filename: String,
    pub file_path: Option<String>,
    pub size: u64,
    pub transferred: u64,
    pub status: TransferStatus,
    pub from_device_id: String,
    pub to_device_id: String,
    pub checksum: Option<String>,
    pub created_at: i64,
    pub updated_at: i64,
}

/// What the receiver has to write for one file-data payload.
#[derive(Debug, Clone)]
pub struct ChunkWrite {
    pub transfer_id: String,
    /// The file to write to.
    pub file_path: String,
    /// Where in the file the data goes.
    pub offset: u64,
    /// The number of bytes that the header announces.
    pub chunk_size: u32,
    pub data: Vec<u8>,
}

/// Whether a file name, given by its bytes, stays inside the directory it
/// is joined to: it is not empty, not `.` or `..`, and holds no `/` or `\`.
pub open spec fn spec_safe_filename(name: Seq<u8>) -> bool {
    &&& name.len() > 0
    &&& name != seq![0x2eu8]
    &&& name != seq![0x2eu8, 0x2eu8]
    &&& forall|i: int| 0 <= i < name.len() ==> name[i] != 0x2f && name[i] != 0x5c
}

/// Whether a file name stays inside the directory it is joined to.
pub fn is_safe_filename(name: &str) -> (r: bool)
    ensures
        r == spec_safe_filename(encode_utf8(name@)),
{
    let bytes = name.as_bytes();
    let n: usize = bytes.len();
    if n == 0 {
        return false;
    }
    if n == 1 && bytes[0] == 0x2e {
        assert(bytes@ =~= seq![0x2eu8]);
        return false;
    }
    if n == 2 && bytes[0] == 0x2e && bytes[1] == 0x2e {
        assert(bytes@ =~= seq![0x2eu8, 0x2eu8]);
        return false;
    }
    let mut i: usize = 0;
    while i < n
        invariant
            i <= n,
            n == bytes@.len(),
            bytes@ == encode_utf8(name@),
            forall|j: int| 0 <= j < i ==> bytes@[j] != 0x2f && bytes@[j] != 0x5c,
        decreases n - i,
    {
        if bytes[i] == 0x2f || bytes[i] == 0x5c {
            assert(bytes@[i as int] == 0x2f || bytes@[i as int] == 0x5c);
            return false;
        }
        i = i + 1;
    }
    assert(bytes@ != seq![0x2eu8]) by {
        if bytes@ == seq![0x2eu8] {
            assert(bytes@.len() == 1);
            assert(bytes@[0] == seq![0x2eu8][0]);
        }
    }
    assert(bytes@ != seq![0x2eu8, 0x2eu8]) by {
        if bytes@ == seq![0x2eu8, 0x2eu8] {
            assert(bytes@.len() == 2);
            assert(bytes@[0] == seq![0x2eu8, 0x2eu8][0]);
            assert(bytes@[1] == seq![0x2eu8, 0x2eu8][1]);
        }
    }
    true
}

/// The payload of a file-data frame: the header of the chunk, then the
/// chunk. The length byte of the header is the identifier's byte length,
/// reduced to its low eight bits.
pub open spec fn spec_file_data_payload(transfer_id: Seq<char>, offset: u64, chunk: Seq<u8>)
    -> Seq<u8> {
    spec_encode_header(
        FileDataHeaderView {
            transfer_id_len: (encode_utf8(transfer_id).len() % 256) as u8,
            transfer_id,
            offset,
            chunk_size: chunk.len() as u32,
        },
    ) + chunk
}

/// The file-data frame of one chunk of a transfer.
pub fn file_data_frame(transfer_id: &str, offset: u64, chunk: &[u8]) -> (f: Frame)
    requires
        chunk@.len() <= u32::MAX,
    ensures
        f.message_type == MessageType::FileData,
        f.payload@ == spec_file_data_payload(transfer_id@, offset, chunk@),
{
    let id_len: usize = transfer_id.as_bytes().len();
    let header = FileDataHeader {
        transfer_id_len: (id_len % 256) as u8,
        transfer_id: transfer_id.to_owned(),
        offset,
        chunk_size: chunk.len() as u32,
    };
    let mut payload = header.encode();
    extend_bytes(&mut payload, chunk);
    Frame::new(MessageType::FileData, payload)
}

/// The number of chunks that a file of `len` bytes is sent in.
pub open spec fn spec_chunk_count(len: int) -> int {
    (len + CHUNK_SIZE - 1) / (CHUNK_SIZE as int)
}

/// The file-data frames of a whole file, in order: chunk `i` starts at
/// offset `i * CHUNK_SIZE` and every chunk but the last is `CHUNK_SIZE`
/// bytes long.
pub fn chunk_frames(transfer_id: &str, content: &[u8]) -> (frames: Vec<Frame>)
    ensures
        frames@.len() == spec_chunk_count(content@.len() as int),
        forall|i: int|
            0 <= i < frames@.len() ==> {
                let start = i * CHUNK_SIZE;
                let end = if start + CHUNK_SIZE <= content@.len() {
                    start + CHUNK_SIZE
                } else {
                    content@.len() as int
                };
                &&& start < end
                &&& (#[trigger] frames@[i]).message_type == MessageType::FileData
                &&& frames@[i].payload@ == spec_file_data_payload(
                    transfer_id@,
                    start as u64,
                    content@.subrange(start, end),
                )
            },
{
    let len: usize = content.len();
    let mut frames: Vec<Frame> = Vec::new();
    let mut offset: usize = 0;
    while offset < len
        invariant
            len == content@.len(),
            offset <= len,
            offset == frames@.len() * CHUNK_SIZE || offset == len,
            offset == len ==> frames@.len() == spec_chunk_count(len as int),
            offset < len ==> offset == frames@.len() * CHUNK_SIZE,
            forall|i: int|
                0 <= i < frames@.len() ==> {
                    let start = i * CHUNK_SIZE;
                    let end = if start + CHUNK_SIZE <= content@.len() {
                        start + CHUNK_SIZE
                    } else {
                        content@.len() as int
                    };
                    &&& start < end
                    &&& (#[trigger] frames@[i]).message_type == MessageType::FileData
                    &&& frames@[i].payload@ == spec_file_data_payload(
                        transfer_id@,
                        start as u64,
                        content@.subrange(start, end),
                    )
                },
        decreases len - offset,
    {
        let end: usize = if len - offset >= CHUNK_SIZE {
            offset + CHUNK_SIZE
        } else {
            len
        };
        let chunk = copy_range(content, offset, end);
        let frame = file_data_frame(transfer_id, offset as u64, chunk.as_slice());
        let ghost k = frames@.len() as int;
        frames.push(frame);
        proof {
            assert(offset == k * CHUNK_SIZE);
            if end == len {
                assert(spec_chunk_count(len as int) == k + 1) by (nonlinear_arith)
                    requires
                        k * 262144 < len,
                        len <= k * 262144 + 262144,
                        spec_chunk_count(len as int) == (len + 262144 - 1) / 262144,
                ;
            } else {
                assert((k + 1) * CHUNK_SIZE == offset + CHUNK_SIZE) by (nonlinear_arith)
                    requires
                        offset == k * CHUNK_SIZE,
                ;
            }
        }
        offset = end;
    }
    frames
}

/// Lower-case hexadecimal SHA-256 of a file's content.
pub fn calculate_checksum(content: &[u8]) -> (r: String)
    ensures
        r@ == sha256_hex_spec(content@),
{
    sha256_hex(content)
}

/// `file` after `data` is written at `offset`: bytes before the offset
/// stay, a gap between the end of the file and the offset is filled with
/// zero bytes, and bytes beyond the written range stay.
pub open spec fn spec_write_at(file: Seq<u8>, offset: int, data: Seq<u8>) -> Seq<u8> {
    let end = offset + data.len();
    let new_len = if end > file.len() {
        end
    } else {
        file.len() as int
    };
    Seq::new(
        new_len as nat,
        |i: int|
            if offset <= i < end {
                data[i - offset]
            } else if i < file.len() {
                file[i]
            } else {
                0u8
            },
    )
}

/// Writes `data` into an in-memory file at `offset`, overwriting or
/// extending it.
pub fn write_at(file: &mut Vec<u8>, offset: usize, data: &[u8])
    requires
        offset + data@.len() <= usize::MAX,
    ensures
        final(file)@ == spec_write_at(old(file)@, offset as int, data@),
{
    let n: usize = data.len();
    while file.len() < offset
        invariant
            file@.len() >= old(file)@.len(),
            file@.len() <= offset || file@.len() == old(file)@.len(),
            forall|i: int| 0 <= i < old(file)@.len() ==> file@[i] == old(file)@[i],
            forall|i: int| old(file)@.len() <= i < file@.len() ==> file@[i] == 0u8,
        decreases offset - file@.len(),
    {
        file.push(0u8);
    }
    let ghost padded = file@;
    let mut i: usize = 0;
    while i < n
        invariant
            i <= n,
            n == data@.len(),
            offset + n <= usize::MAX,
            offset <= padded.len(),
            padded.len() >= old(file)@.len(),
            padded.len() == offset || padded.len() == old(file)@.len(),
            forall|j: int| 0 <= j < old(file)@.len() ==> padded[j] == old(file)@[j],
            forall|j: int| old(file)@.len() <= j < padded.len() ==> padded[j] == 0u8,
            file@.len() == (if offset + i > padded.len() {
                offset + i
            } else {
                padded.len() as int
            }),
            forall|j: int| 0 <= j < offset ==> file@[j] == padded[j],
            forall|j: int| offset <= j < offset + i ==> file@[j] == data@[j - offset],
            forall|j: int| offset + i <= j < file@.len() ==> file@[j] == padded[j],
        decreases n - i,
    {
        if offset + i < file.len() {
            file.set(offset + i, data[i]);
        } else {
            file.push(data[i]);
        }
        i = i + 1;
    }
    let ghost want = spec_write_at(old(file)@, offset as int, data@);
    assert(file@.len() == want.len());
    assert forall|j: int| 0 <= j < file@.len() implies file@[j] == want[j] by {
        if j < offset {
            assert(file@[j] == padded[j]);
        } else if j < offset + n {
            assert(file@[j] == data@[j - offset]);
        } else {
            assert(file@[j] == padded[j]);
        }
    }
    assert(file@ =~= want);
}

/// Chunk `i` of a file: the bytes from `i * CHUNK_SIZE` up to the next
/// chunk or the end of the file.
pub open spec fn spec_chunk(content: Seq<u8>, i: int) -> Seq<u8> {
    let start = i * CHUNK_SIZE;
    let end = if start + CHUNK_SIZE <= content.len() {
        start + CHUNK_SIZE
    } else {
        content.len() as int
    };
    content.subrange(start, end)
}

/// The file that the receiver holds after writing the first `n` chunks of
/// `content`, each at its offset, into an empty file.
pub open spec fn spec_received(content: Seq<u8>, n: nat) -> Seq<u8>
    decreases n,
{
    if n == 0 {
        Seq::empty()
    } else {
        spec_write_at(
            spec_received(content, (n - 1) as nat),
            (n - 1) * CHUNK_SIZE,
            spec_chunk(content, n - 1),
        )
    }
}

/// After the first `n` chunks the receiver holds the file up to the end of
/// chunk `n`; after all chunks it holds the whole file.
pub proof fn lemma_chunks_reassemble(content: Seq<u8>, n: nat)
    requires
        n <= spec_chunk_count(content.len() as int),
    ensures
        spec_received(content, n) == content.subrange(
            0,
            if n * CHUNK_SIZE <= content.len() {
                n * CHUNK_SIZE
            } else {
                content.len() as int
            },
        ),
        n == spec_chunk_count(content.len() as int) ==> spec_received(content, n) == content,
    decreases n,
{
    let len = content.len() as int;
    let count = spec_chunk_count(len);
    assert(count * 262144 >= len && (count - 1) * 262144 < len || len == 0 && count == 0)
        by (nonlinear_arith)
        requires
            count == (len + 262144 - 1) / 262144,
            len >= 0,
    ;
    if n == 0 {
        assert(spec_received(content, n) =~= content.subrange(0, 0));
    } else {
        lemma_chunks_reassemble(content, (n - 1) as nat);
        let start = (n - 1) * CHUNK_SIZE;
        assert(start + 262144 == n * 262144) by (nonlinear_arith)
            requires
                start == (n - 1) * 262144,
        ;
        assert(start < len) by (nonlinear_arith)
            requires
                start == (n - 1) * 262144,
                n <= count,
                (count - 1) * 262144 < len,
                n >= 1,
        ;
        let end = if n * CHUNK_SIZE <= len {
            n * CHUNK_SIZE
        } else {
            len
        };
        assert(spec_received(content, n) =~= content.subrange(0, end));
    }
    if n == count {
        assert(content.subrange(0, len) =~= content);
    }
}

/// The receiver reads from the payload of a file-data frame the transfer,
/// the offset and the chunk that the sender put in, for every identifier
/// of at most 255 bytes.
pub proof fn lemma_file_data_payload_roundtrip(transfer_id: Seq<char>, offset: u64, chunk: Seq<u8>)
    requires
        encode_utf8(transfer_id).len() <= 255,
        chunk.len() <= u32::MAX,
    ensures
        spec_decode_header(spec_file_data_payload(transfer_id, offset, chunk)) matches Some(
            (h, used),
        ) && h.transfer_id == transfer_id && h.offset == offset && h.chunk_size == chunk.len()
            && spec_file_data_payload(transfer_id, offset, chunk).subrange(
            used,
            spec_file_data_payload(transfer_id, offset, chunk).len() as int,
        ) == chunk,
{
    let h = FileDataHeaderView {
        transfer_id_len: (encode_utf8(transfer_id).len() % 256) as u8,
        transfer_id,
        offset,
        chunk_size: chunk.len() as u32,
    };
    crate::protocol::lemma_header_roundtrip(h, chunk);
}

/// The table of transfers, the directory that received files go to, and the
/// number of transfers that are active.
pub struct FileTransferService {
    transfers: Registry<FileTransfer>,
    transfer_dir: String,
    tcp_port: u16,
    active_transfers: usize,
}

impl FileTransferService {
    /// The transfers, by id.
    pub closed spec fn transfers(&self) -> Map<Seq<char>, FileTransfer> {
        self.transfers@
    }

    /// The directory of received files.
    pub closed spec fn transfer_dir(&self) -> Seq<char> {
        self.transfer_dir@
    }

    /// The port that peers are reached on.
    pub closed spec fn tcp_port(&self) -> u16 {
        self.tcp_port
    }

    /// The number of active transfers.
    pub closed spec fn active(&self) -> nat {
        self.active_transfers as nat
    }

    /// Whether the table is well formed and no more transfers are active
    /// than may be.
    pub closed spec fn wf(&self) -> bool {
        &&& self.transfers.wf()
        &&& self.active_transfers <= MAX_CONCURRENT_TRANSFERS
    }

    /// In a well-formed engine at most `MAX_CONCURRENT_TRANSFERS` transfers
    /// are active.
    pub proof fn lemma_active_bounded(&self)
        requires
            self.wf(),
        ensures
            self.active() <= MAX_CONCURRENT_TRANSFERS,
    {
    }

    /// An engine with no transfer, which receives into `transfer_dir` and
    /// reaches peers on port 8080.
    pub fn new(transfer_dir: String) -> (s: FileTransferService)
        ensures
            s.wf(),
            s.transfers() == Map::<Seq<char>, FileTransfer>::empty(),
            s.transfer_dir() == transfer_dir@,
            s.tcp_port() == 8080,
            s.active() == 0,
    {
        FileTransferService {
            transfers: Registry::new(),
            transfer_dir,
            tcp_port: 8080,
            active_transfers: 0,
        }
    }

    /// Sets the port that peers are reached on.
    pub fn set_tcp_port(&mut self, port: u16)
        ensures
            final(self).tcp_port() == port,
            final(self).transfers() == old(self).transfers(),
            final(self).transfer_dir() == old(self).transfer_dir(),
            final(self).active() == old(self).active(),
            old(self).wf() ==> final(self).wf(),
    {
        self.tcp_port = port;
    }

    /// The port that peers are reached on.
    pub fn port(&self) -> (r: u16)
        ensures
            r == self.tcp_port(),
    {
        self.tcp_port
    }

    /// Registers an outgoing transfer under the given id, in status
    /// `Pending`. `file_size` is the size of the file to send, or `None`
    /// where there is no such file, which is the error `FileNotFound`.
    pub fn create_transfer_with_id(
        &mut self,
        id: String,
        filename: String,
        file_path: String,
        file_size: Option<u64>,
        from_device_id: String,
        to_device_id: String,
        now: i64,
    ) -> (r: Result<(), TransferError>)
        requires
            old(self).wf(),
        ensures
            final(self).wf(),
            final(self).active() == old(self).active(),
            final(self).transfer_dir() == old(self).transfer_dir(),
            final(self).tcp_port() == old(self).tcp_port(),
            match r {
                Ok(()) => file_size is Some && final(self).transfers() == old(self).transfers().insert(
                    id@,
                    FileTransfer {
                        id,
                        filename,
                        file_path: Some(file_path),
                        size: file_size->Some_0,
                        transferred: 0,
                        status: TransferStatus::Pending,
                        from_device_id,
                        to_device_id,
                        checksum: None,
                        created_at: now,
                        updated_at: now,
                    },
                ),
                Err(e) => e == TransferError::FileNotFound && file_size is None && final(self).transfers() == old(self).transfers(),
            },
    {
        let size: u64 = match file_size {
            Some(n) => n,
            None => {
                return Err(TransferError::FileNotFound);
            },
        };
        let key = id.clone();
        let transfer = FileTransfer {
            id,
            filename,
            file_path: Some(file_path),
            size,
            transferred: 0,
            status: TransferStatus::Pending,
            from_device_id,
            to_device_id,
            checksum: None,
            created_at: now,
            updated_at: now,
        };
        self.transfers.insert(key.as_str(), transfer);
        Ok(())
    }

    /// Registers an outgoing transfer under a freshly drawn id, which is
    /// returned. Whatever the id, the transfer is registered as
    /// `create_transfer_with_id` does.
    pub fn create_transfer(
        &mut self,
        filename: String,
        file_path: String,
        file_size: Option<u64>,
        from_device_id: String,
        to_device_id: String,
        now: i64,
    ) -> (r: Result<String, TransferError>)
        requires
            old(self).wf(),
        ensures
            final(self).wf(),
            final(self).active() == old(self).active(),
            match r {
                Ok(id) => file_size is Some && final(self).transfers() == old(self).transfers().insert(
                    id@,
                    FileTransfer {
                        id,
                        filename,
                        file_path: Some(file_path),
                        size: file_size->Some_0,
                        transferred: 0,
                        status: TransferStatus::Pending,
                        from_device_id,
                        to_device_id,
                        checksum: None,
                        created_at: now,
                        updated_at: now,
                    },
                ),
                Err(e) => e == TransferError::FileNotFound && file_size is None && final(self).transfers() == old(self).transfers(),
            },
    {
        let id = new_uuid_v4();
        let returned = id.clone();
        match self.create_transfer_with_id(
            id,
            filename,
            file_path,
            file_size,
            from_device_id,
            to_device_id,
            now,
        ) {
            Ok(()) => Ok(returned),
            Err(e) => Err(e),
        }
    }

    /// Admits a pending transfer for sending. In order: with the limit of
    /// active transfers reached, nothing changes and the error is
    /// `TooManyActiveTransfers`; an unknown id is `TransferNotFound`; a
    /// transfer that is not `Pending` is `WrongTransferState`. Otherwise
    /// the transfer becomes `InProgress`. Then, without a peer address,
    /// the error is `MissingPeerAddress`; with one, the transfer counts as
    /// active and the address is returned.
    pub fn start_transfer(&mut self, transfer_id: &str, peer_address: Option<String>, now: i64)
        -> (r: Result<String, TransferError>)
        requires
            old(self).wf(),
        ensures
            final(self).wf(),
            final(self).transfer_dir() == old(self).transfer_dir(),
            final(self).tcp_port() == old(self).tcp_port(),
            spec_start_transfer(*old(self), transfer_id@, peer_address, now, r, *final(self)),
    {
        if self.active_transfers >= MAX_CONCURRENT_TRANSFERS {
            return Err(TransferError::TooManyActiveTransfers);
        }
        let mut transfer = match self.transfers.remove(transfer_id) {
            Some(t) => t,
            None => {
                assert(self.transfers@ =~= old(self).transfers@);
                return Err(TransferError::TransferNotFound);
            },
        };
        if transfer.status != TransferStatus::Pending {
            self.transfers.insert(transfer_id, transfer);
            assert(self.transfers@ =~= old(self).transfers@);
            return Err(TransferError::WrongTransferState);
        }
        transfer.status = TransferStatus::InProgress;
        transfer.updated_at = now;
        self.transfers.insert(transfer_id, transfer);
        assert(self.transfers@ =~= old(self).transfers@.insert(
            transfer_id@,
            spec_with_status(old(self).transfers@[transfer_id@], TransferStatus::InProgress, now),
        ));
        match peer_address {
            Some(address) => {
                self.active_transfers = self.active_transfers + 1;
                Ok(address)
            },
            None => Err(TransferError::MissingPeerAddress),
        }
    }

    /// Ends the activity of a transfer that `start_transfer` admitted: one
    /// transfer fewer is active, and a transfer that did not succeed
    /// becomes `Failed`.
    pub fn finish_transfer(&mut self, transfer_id: &str, succeeded: bool, now: i64)
        requires
            old(self).wf(),
        ensures
            final(self).wf(),
            final(self).active() == (if old(self).active() > 0 {
                old(self).active() - 1
            } else {
                0
            }),
            final(self).transfers() == (if succeeded {
                old(self).transfers()
            } else {
                spec_update_status(old(self).transfers(), transfer_id@, TransferStatus::Failed, now)
            }),
    {
        if self.active_transfers > 0 {
            self.active_transfers = self.active_transfers - 1;
        }
        if !succeeded {
            self.update_status(transfer_id, TransferStatus::Failed, now);
        }
    }

    /// The request that announces an outgoing transfer to the peer, with
    /// the checksum of the file. An unknown id is `TransferNotFound`; a
    /// transfer without a file to read is `MissingFilePath`.
    pub fn build_file_request(&self, transfer_id: &str, checksum: &str) -> (r: Result<
        FileRequestPayload,
        TransferError,
    >)
        requires
            self.wf(),
        ensures
            match r {
                Ok(p) => {
                    let t = self.transfers()[transfer_id@];
                    &&& self.transfers().contains_key(transfer_id@)
                    &&& t.file_path is Some
                    &&& p.msg_type@ == "FILE_REQUEST"@
                    &&& p.transfer_id == t.id
                    &&& p.filename == t.filename
                    &&& p.file_size == t.size
                    &&& p.from_device_id == t.from_device_id
                    &&& p.to_device_id == t.to_device_id
                    &&& p.checksum@ == checksum@
                },
                Err(e) => if self.transfers().contains_key(transfer_id@) {
                    e == TransferError::MissingFilePath
                        && self.transfers()[transfer_id@].file_path is None
                } else {
                    e == TransferError::TransferNotFound
                },
            },
    {
        let transfer = match self.transfers.get(transfer_id) {
            Some(t) => t,
            None => {
                return Err(TransferError::TransferNotFound);
            },
        };
        if transfer.file_path.is_none() {
            return Err(TransferError::MissingFilePath);
        }
        Ok(
            FileRequestPayload {
                msg_type: "FILE_REQUEST".to_owned(),
                transfer_id: transfer.id.clone(),
                filename: transfer.filename.clone(),
                file_size: transfer.size,
                from_device_id: transfer.from_device_id.clone(),
                to_device_id: transfer.to_device_id.clone(),
                checksum: checksum.to_owned(),
            },
        )
    }

    /// The notice that tells the peer that every chunk has been sent.
    pub fn build_file_complete(transfer_id: &str, checksum: &str) -> (r: FileCompletePayload)
        ensures
            r.msg_type@ == "FILE_COMPLETE"@,
            r.transfer_id@ == transfer_id@,
            r.checksum@ == checksum@,
    {
        FileCompletePayload {
            msg_type: "FILE_COMPLETE".to_owned(),
            transfer_id: transfer_id.to_owned(),
            checksum: checksum.to_owned(),
        }
    }

    /// Whether the sender goes on with the next chunk: not when the
    /// transfer has been paused or cancelled.
    pub fn should_continue(&self, transfer_id: &str) -> (r: bool)
        requires
            self.wf(),
        ensures
            r == !(self.transfers().contains_key(transfer_id@) && (self.transfers()[transfer_id@].status
                == TransferStatus::Cancelled || self.transfers()[transfer_id@].status
                == TransferStatus::Paused)),
    {
        match self.transfers.get(transfer_id) {
            Some(t) => !(t.status == TransferStatus::Cancelled || t.status
                == TransferStatus::Paused),
            None => true,
        }
    }

    /// Records how many bytes of a transfer have been sent or written.
    /// Nothing changes for an unknown id.
    pub fn record_progress(&mut self, transfer_id: &str, transferred: u64, now: i64)
        requires
            old(self).wf(),
        ensures
            final(self).wf(),
            final(self).active() == old(self).active(),
            final(self).transfers() == (if old(self).transfers().contains_key(transfer_id@) {
                old(self).transfers().insert(
                    transfer_id@,
                    FileTransfer {
                        transferred,
                        updated_at: now,
                        ..old(self).transfers()[transfer_id@]
                    },
                )
            } else {
                old(self).transfers()
            }),
    {
        match self.transfers.remove(transfer_id) {
            Some(mut t) => {
                t.transferred = transferred;
                t.updated_at = now;
                self.transfers.insert(transfer_id, t);
                assert(self.transfers@ =~= old(self).transfers@.insert(
                    transfer_id@,
                    FileTransfer {
                        transferred,
                        updated_at: now,
                        ..old(self).transfers@[transfer_id@]
                    },
                ));
            },
            None => {
                assert(self.transfers@ =~= old(self).transfers@);
            },
        }
    }

    /// Marks a transfer as completed by the sender, with the checksum that
    /// was announced. Nothing changes for an unknown id.
    pub fn complete_send(&mut self, transfer_id: &str, checksum: String, now: i64)
        requires
            old(self).wf(),
        ensures
            final(self).wf(),
            final(self).active() == old(self).active(),
            final(self).transfers() == (if old(self).transfers().contains_key(transfer_id@) {
                old(self).transfers().insert(
                    transfer_id@,
                    FileTransfer {
                        status: TransferStatus::Completed,
                        checksum: Some(checksum),
                        updated_at: now,
                        ..old(self).transfers()[transfer_id@]
                    },
                )
            } else {
                old(self).transfers()
            }),
    {
        match self.transfers.remove(transfer_id) {
            Some(mut t) => {
                t.status = TransferStatus::Completed;
                t.checksum = Some(checksum);
                t.updated_at = now;
                self.transfers.insert(transfer_id, t);
                assert(self.transfers@ =~= old(self).transfers@.insert(
                    transfer_id@,
                    FileTransfer {
                        status: TransferStatus::Completed,
                        checksum: Some(checksum),
                        updated_at: now,
                        ..old(self).transfers@[transfer_id@]
                    },
                ));
            },
            None => {
                assert(self.transfers@ =~= old(self).transfers@);
            },
        }
    }

    /// Registers an incoming request as a transfer that awaits acceptance,
    /// in place of any transfer with the same id.
    pub fn receive_file_request(&mut self, payload: FileRequestPayload, now: i64)
        requires
            old(self).wf(),
        ensures
            final(self).wf(),
            final(self).active() == old(self).active(),
            final(self).transfers() == old(self).transfers().insert(
                payload.transfer_id@,
                FileTransfer {
                    id: payload.transfer_id,
                    filename: payload.filename,
                    file_path: None,
                    size: payload.file_size,
                    transferred: 0,
                    status: TransferStatus::AwaitingAcceptance,
                    from_device_id: payload.from_device_id,
                    to_device_id: payload.to_device_id,
                    checksum: Some(payload.checksum),
                    created_at: now,
                    updated_at: now,
                },
            ),
    {
        let key = payload.transfer_id.clone();
        let transfer = FileTransfer {
            id: payload.transfer_id,
            filename: payload.filename,
            file_path: None,
            size: payload.file_size,
            transferred: 0,
            status: TransferStatus::AwaitingAcceptance,
            from_device_id: payload.from_device_id,
            to_device_id: payload.to_device_id,
            checksum: Some(payload.checksum),
            created_at: now,
            updated_at: now,
        };
        self.transfers.insert(key.as_str(), transfer);
    }

    /// Accepts an incoming transfer: its destination becomes the transfer
    /// directory joined with its file name, and its status `InProgress`.
    /// An unknown id is `TransferNotFound`; a transfer that does not await
    /// acceptance is `WrongTransferState`; a file name that could lead out
    /// of the transfer directory is `UnsafeFilename`. On an error nothing
    /// changes.
    pub fn accept_transfer(&mut self, transfer_id: &str, now: i64) -> (r: Result<
        (),
        TransferError,
    >)
        requires
            old(self).wf(),
        ensures
            final(self).wf(),
            final(self).active() == old(self).active(),
            final(self).transfer_dir() == old(self).transfer_dir(),
            match r {
                Ok(()) => {
                    let before = old(self).transfers()[transfer_id@];
                    let after = final(self).transfers()[transfer_id@];
                    &&& old(self).transfers().contains_key(transfer_id@)
                    &&& before.status == TransferStatus::AwaitingAcceptance
                    &&& spec_safe_filename(encode_utf8(before.filename@))
                    &&& final(self).transfers() == old(self).transfers().insert(
                        transfer_id@,
                        after,
                    )
                    &&& after == (FileTransfer {
                        file_path: after.file_path,
                        status: TransferStatus::InProgress,
                        updated_at: now,
                        ..before
                    })
                    &&& after.file_path matches Some(path) && path@ == old(self).transfer_dir()
                        + "/"@ + before.filename@
                },
                Err(e) => {
                    &&& final(self).transfers() == old(self).transfers()
                    &&& e == spec_accept_error(old(self).transfers(), transfer_id@)->Some_0
                    &&& spec_accept_error(old(self).transfers(), transfer_id@) is Some
                },
            },
    {
        let mut transfer = match self.transfers.remove(transfer_id) {
            Some(t) => t,
            None => {
                assert(self.transfers@ =~= old(self).transfers@);
                return Err(TransferError::TransferNotFound);
            },
        };
        if transfer.status != TransferStatus::AwaitingAcceptance {
            self.transfers.insert(transfer_id, transfer);
            assert(self.transfers@ =~= old(self).transfers@);
            return Err(TransferError::WrongTransferState);
        }
        if !is_safe_filename(transfer.filename.as_str()) {
            self.transfers.insert(transfer_id, transfer);
            assert(self.transfers@ =~= old(self).transfers@);
            return Err(TransferError::UnsafeFilename);
        }
        let dir = str_concat(self.transfer_dir.as_str(), "/");
        let path = str_concat(dir.as_str(), transfer.filename.as_str());
        transfer.file_path = Some(path);
        transfer.status = TransferStatus::InProgress;
        transfer.updated_at = now;
        self.transfers.insert(transfer_id, transfer);
        Ok(())
    }

    /// Rejects an incoming transfer: it becomes `Cancelled`. An unknown id
    /// is `TransferNotFound`; a transfer that does not await acceptance is
    /// `WrongTransferState`. On an error nothing changes.
    pub fn reject_transfer(&mut self, transfer_id: &str, now: i64) -> (r: Result<
        (),
        TransferError,
    >)
        requires
            old(self).wf(),
        ensures
            final(self).wf(),
            final(self).active() == old(self).active(),
            match r {
                Ok(()) => {
                    &&& old(self).transfers().contains_key(transfer_id@)
                    &&& old(self).transfers()[transfer_id@].status
                        == TransferStatus::AwaitingAcceptance
                    &&& final(self).transfers() == spec_update_status(
                        old(self).transfers(),
                        transfer_id@,
                        TransferStatus::Cancelled,
                        now,
                    )
                },
                Err(e) => {
                    &&& final(self).transfers() == old(self).transfers()
                    &&& if old(self).transfers().contains_key(transfer_id@) {
                        e == TransferError::WrongTransferState && old(self).transfers()[transfer_id@].status != TransferStatus::AwaitingAcceptance
                    } else {
                        e == TransferError::TransferNotFound
                    }
                },
            },
    {
        let awaiting = match self.transfers.get(transfer_id) {
            Some(t) => t.status == TransferStatus::AwaitingAcceptance,
            None => {
                return Err(TransferError::TransferNotFound);
            },
        };
        if !awaiting {
            return Err(TransferError::WrongTransferState);
        }
        self.update_status(transfer_id, TransferStatus::Cancelled, now);
        Ok(())
    }

    /// Reads a file-data payload and says what is to be written where. In
    /// order: a payload without a well-formed header, or whose chunk would
    /// end beyond the largest offset, is `BadDataHeader`; an unknown
    /// transfer is `TransferNotFound`; a transfer that is not `InProgress`
    /// is `WrongTransferState`; one without a destination is
    /// `MissingFilePath`. The data is what follows the header.
    pub fn receive_file_chunk(&self, payload: &[u8]) -> (r: Result<ChunkWrite, TransferError>)
        requires
            self.wf(),
        ensures
            match r {
                Ok(w) => {
                    &&& spec_decode_header(payload@) matches Some((h, used))
                    &&& spec_chunk_error(self.transfers(), payload@) is None
                    &&& w.transfer_id@ == h.transfer_id
                    &&& w.offset == h.offset
                    &&& w.chunk_size == h.chunk_size
                    &&& w.offset + w.chunk_size <= u64::MAX
                    &&& w.data@ == payload@.subrange(used, payload@.len() as int)
                    &&& Some(w.file_path) == self.transfers()[h.transfer_id].file_path
                },
                Err(e) => spec_chunk_error(self.transfers(), payload@) == Some(e),
            },
    {
        let (header, header_size) = match FileDataHeader::decode(payload) {
            Ok(pair) => pair,
            Err(_) => {
                return Err(TransferError::BadDataHeader);
            },
        };
        if header.offset > u64::MAX - (header.chunk_size as u64) {
            return Err(TransferError::BadDataHeader);
        }
        let transfer = match self.transfers.get(header.transfer_id.as_str()) {
            Some(t) => t,
            None => {
                return Err(TransferError::TransferNotFound);
            },
        };
        if transfer.status != TransferStatus::InProgress {
            return Err(TransferError::WrongTransferState);
        }
        let file_path = match &transfer.file_path {
            Some(p) => p.clone(),
            None => {
                return Err(TransferError::MissingFilePath);
            },
        };
        let data = copy_range(payload, header_size, payload.len());
        Ok(
            ChunkWrite {
                transfer_id: header.transfer_id,
                file_path,
                offset: header.offset,
                chunk_size: header.chunk_size,
                data,
            },
        )
    }

    /// Records that a chunk has been written: the transfer has progressed
    /// to the end of that chunk. Nothing changes for an unknown id.
    pub fn record_chunk_written(&mut self, transfer_id: &str, offset: u64, chunk_size: u32, now: i64)
        requires
            old(self).wf(),
            offset + chunk_size <= u64::MAX,
        ensures
            final(self).wf(),
            final(self).active() == old(self).active(),
            final(self).transfers() == (if old(self).transfers().contains_key(transfer_id@) {
                old(self).transfers().insert(
                    transfer_id@,
                    FileTransfer {
                        transferred: (offset + chunk_size) as u64,
                        updated_at: now,
                        ..old(self).transfers()[transfer_id@]
                    },
                )
            } else {
                old(self).transfers()
            }),
    {
        self.record_progress(transfer_id, offset + chunk_size as u64, now);
    }

    /// The file that has to be hashed before a completion notice for the
    /// transfer can be handled, if the transfer has a destination.
    pub fn completion_file_path(&self, transfer_id: &str) -> (r: Result<
        Option<String>,
        TransferError,
    >)
        requires
            self.wf(),
        ensures
            match r {
                Ok(path) => self.transfers().contains_key(transfer_id@) && path
                    == self.transfers()[transfer_id@].file_path,
                Err(e) => e == TransferError::TransferNotFound && !self.transfers().contains_key(
                    transfer_id@,
                ),
            },
    {
        match self.transfers.get(transfer_id) {
            Some(t) => match &t.file_path {
                Some(p) => Ok(Some(p.clone())),
                None => Ok(None),
            },
            None => Err(TransferError::TransferNotFound),
        }
    }

    /// Handles the sender's completion notice. `calculated_checksum` is the
    /// SHA-256 of the file as written, or `None` where it could not be
    /// computed. An unknown transfer is `TransferNotFound`. A transfer with
    /// a destination whose checksum could not be computed is left as it is,
    /// with `FileNotFound`; one whose checksum differs from the announced
    /// one becomes `Failed`, with `ChecksumMismatch`. Otherwise the
    /// transfer becomes `Completed` and keeps the announced checksum.
    pub fn handle_complete(
        &mut self,
        payload: FileCompletePayload,
        calculated_checksum: Option<String>,
        now: i64,
    ) -> (r: Result<(), TransferError>)
        requires
            old(self).wf(),
        ensures
            final(self).wf(),
            final(self).active() == old(self).active(),
            spec_handle_complete(
                old(self).transfers(),
                payload,
                calculated_checksum,
                now,
                r,
                final(self).transfers(),
            ),
    {
        let mut transfer = match self.transfers.remove(payload.transfer_id.as_str()) {
            Some(t) => t,
            None => {
                assert(self.transfers@ =~= old(self).transfers@);
                return Err(TransferError::TransferNotFound);
            },
        };
        if transfer.file_path.is_some() {
            match calculated_checksum {
                Some(calculated) => {
                    if !(calculated == payload.checksum) {
                        transfer.status = TransferStatus::Failed;
                        self.transfers.insert(payload.transfer_id.as_str(), transfer);
                        assert(self.transfers@ =~= old(self).transfers@.insert(
                            payload.transfer_id@,
                            FileTransfer {
                                status: TransferStatus::Failed,
                                ..old(self).transfers@[payload.transfer_id@]
                            },
                        ));
                        return Err(TransferError::ChecksumMismatch);
                    }
                },
                None => {
                    self.transfers.insert(payload.transfer_id.as_str(), transfer);
                    assert(self.transfers@ =~= old(self).transfers@);
                    return Err(TransferError::FileNotFound);
                },
            }
        }
        transfer.status = TransferStatus::Completed;
        transfer.checksum = Some(payload.checksum);
        transfer.updated_at = now;
        self.transfers.insert(payload.transfer_id.as_str(), transfer);
        assert(self.transfers@ =~= old(self).transfers@.insert(
            payload.transfer_id@,
            FileTransfer {
                status: TransferStatus::Completed,
                checksum: Some(payload.checksum),
                updated_at: now,
                ..old(self).transfers@[payload.transfer_id@]
            },
        ));
        Ok(())
    }

    /// Pauses a transfer. Nothing changes for an unknown id.
    pub fn pause_transfer(&mut self, transfer_id: &str, now: i64) -> (r: Result<(), TransferError>)
        requires
            old(self).wf(),
        ensures
            r is Ok,
            final(self).wf(),
            final(self).active() == old(self).active(),
            final(self).transfers() == spec_update_status(
                old(self).transfers(),
                transfer_id@,
                TransferStatus::Paused,
                now,
            ),
    {
        self.update_status(transfer_id, TransferStatus::Paused, now);
        Ok(())
    }

    /// Cancels a transfer. Nothing changes for an unknown id.
    pub fn cancel_transfer(&mut self, transfer_id: &str, now: i64) -> (r: Result<(), TransferError>)
        requires
            old(self).wf(),
        ensures
            r is Ok,
            final(self).wf(),
            final(self).active() == old(self).active(),
            final(self).transfers() == spec_update_status(
                old(self).transfers(),
                transfer_id@,
                TransferStatus::Cancelled,
                now,
            ),
    {
        self.update_status(transfer_id, TransferStatus::Cancelled, now);
        Ok(())
    }

    /// Every transfer, in the order in which their ids were first
    /// registered.
    pub fn get_transfers(&self) -> (r: &Vec<FileTransfer>)
        requires
            self.wf(),
        ensures
            r@.len() == self.transfers().dom().len(),
            forall|i: int| 0 <= i < r@.len() ==> self.transfers().contains_value(#[trigger] r@[i]),
    {
        let values = self.transfers.values();
        proof {
            assert forall|i: int| 0 <= i < values@.len() implies self.transfers().contains_value(
                #[trigger] values@[i],
            ) by {
                let k = self.transfers.key_seq()[i];
                assert(self.transfers().dom().contains(k) && self.transfers()[k] == values@[i]);
            }
        }
        values
    }

    /// The transfer with the given id, if there is one.
    pub fn get_transfer(&self, transfer_id: &str) -> (r: Option<&FileTransfer>)
        requires
            self.wf(),
        ensures
            match r {
                Some(t) => self.transfers().contains_key(transfer_id@)
                    && self.transfers()[transfer_id@] == *t,
                None => !self.transfers().contains_key(transfer_id@),
            },
    {
        self.transfers.get(transfer_id)
    }

    /// Sets the status of a transfer. Nothing changes for an unknown id.
    pub fn update_status(&mut self, transfer_id: &str, status: TransferStatus, now: i64)
        requires
            old(self).wf(),
        ensures
            final(self).wf(),
            final(self).active() == old(self).active(),
            final(self).transfer_dir() == old(self).transfer_dir(),
            final(self).tcp_port() == old(self).tcp_port(),
            final(self).transfers() == spec_update_status(
                old(self).transfers(),
                transfer_id@,
                status,
                now,
            ),
    {
        match self.transfers.remove(transfer_id) {
            Some(mut t) => {
                t.status = status;
                t.updated_at = now;
                self.transfers.insert(transfer_id, t);
                assert(self.transfers@ =~= spec_update_status(
                    old(self).transfers@,
                    transfer_id@,
                    status,
                    now,
                ));
            },
            None => {
                assert(self.transfers@ =~= old(self).transfers@);
            },
        }
    }

    /// The number of active transfers.
    pub fn active_count(&self) -> (r: usize)
        ensures
            r == self.active(),
    {
        self.active_transfers
    }
}

/// A transfer with another status, updated at `now`.
pub open spec fn spec_with_status(t: FileTransfer, status: TransferStatus, now: i64)
    -> FileTransfer {
    FileTransfer { status, updated_at: now, ..t }
}

/// The table after the status of one transfer is set; the same table where
/// the id is unknown.
pub open spec fn spec_update_status(
    transfers: Map<Seq<char>, FileTransfer>,
    id: Seq<char>,
    status: TransferStatus,
    now: i64,
) -> Map<Seq<char>, FileTransfer> {
    if transfers.contains_key(id) {
        transfers.insert(id, spec_with_status(transfers[id], status, now))
    } else {
        transfers
    }
}

/// How admitting a transfer relates the engine before and after it to the
/// result.
pub open spec fn spec_start_transfer(
    before: FileTransferService,
    id: Seq<char>,
    peer_address: Option<String>,
    now: i64,
    r: Result<String, TransferError>,
    after: FileTransferService,
) -> bool {
    if before.active() >= MAX_CONCURRENT_TRANSFERS {
        &&& r == Err::<String, TransferError>(TransferError::TooManyActiveTransfers)
        &&& after.transfers() == before.transfers()
        &&& after.active() == before.active()
    } else if !before.transfers().contains_key(id) {
        &&& r == Err::<String, TransferError>(TransferError::TransferNotFound)
        &&& after.transfers() == before.transfers()
        &&& after.active() == before.active()
    } else if before.transfers()[id].status != TransferStatus::Pending {
        &&& r == Err::<String, TransferError>(TransferError::WrongTransferState)
        &&& after.transfers() == before.transfers()
        &&& after.active() == before.active()
    } else {
        &&& after.transfers() == before.transfers().insert(
            id,
            spec_with_status(before.transfers()[id], TransferStatus::InProgress, now),
        )
        &&& match peer_address {
            Some(address) => r == Ok::<String, TransferError>(address) && after.active()
                == before.active() + 1,
            None => r == Err::<String, TransferError>(TransferError::MissingPeerAddress)
                && after.active() == before.active(),
        }
    }
}

/// The error with which accepting a transfer fails, if it does.
pub open spec fn spec_accept_error(transfers: Map<Seq<char>, FileTransfer>, id: Seq<char>)
    -> Option<TransferError> {
    if !transfers.contains_key(id) {
        Some(TransferError::TransferNotFound)
    } else if transfers[id].status != TransferStatus::AwaitingAcceptance {
        Some(TransferError::WrongTransferState)
    } else if !spec_safe_filename(encode_utf8(transfers[id].filename@)) {
        Some(TransferError::UnsafeFilename)
    } else {
        None
    }
}

/// The error with which a file-data payload is refused, if it is.
pub open spec fn spec_chunk_error(transfers: Map<Seq<char>, FileTransfer>, payload: Seq<u8>)
    -> Option<TransferError> {
    match spec_decode_header(payload) {
        None => Some(TransferError::BadDataHeader),
        Some((h, used)) => if h.offset + h.chunk_size > u64::MAX {
            Some(TransferError::BadDataHeader)
        } else if !transfers.contains_key(h.transfer_id) {
            Some(TransferError::TransferNotFound)
        } else if transfers[h.transfer_id].status != TransferStatus::InProgress {
            Some(TransferError::WrongTransferState)
        } else if transfers[h.transfer_id].file_path is None {
            Some(TransferError::MissingFilePath)
        } else {
            None
        },
    }
}

/// How handling a completion notice relates the table before and after it
/// to the result.
pub open spec fn spec_handle_complete(
    before: Map<Seq<char>, FileTransfer>,
    payload: FileCompletePayload,
    calculated: Option<String>,
    now: i64,
    r: Result<(), TransferError>,
    after: Map<Seq<char>, FileTransfer>,
) -> bool {
    let id = payload.transfer_id@;
    if !before.contains_key(id) {
        r == Err::<(), TransferError>(TransferError::TransferNotFound) && after == before
    } else if before[id].file_path is Some && calculated is None {
        r == Err::<(), TransferError>(TransferError::FileNotFound) && after == before
    } else if before[id].file_path is Some && calculated->Some_0@ != payload.checksum@ {
        &&& r == Err::<(), TransferError>(TransferError::ChecksumMismatch)
        &&& after == before.insert(
            id,
            FileTransfer { status: TransferStatus::Failed, ..before[id] },
        )
    } else {
        &&& r == Ok::<(), TransferError>(())
        &&& after == before.insert(
            id,
            FileTransfer {
                status: TransferStatus::Completed,
                checksum: Some(payload.checksum),
                updated_at: now,
                ..before[id]
            },
        )
    }
}

} // verus!
