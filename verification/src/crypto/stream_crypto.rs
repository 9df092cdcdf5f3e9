//! Streaming encryption of file transfers with AES-256-CTR.
//!
//! A stream is processed buffer by buffer. The cipher carries its position
//! from one buffer to the next, so the output does not depend on where the
//! stream is cut.

use crate::bytes::{copy_range, extend_bytes};
use crate::crypto::session::{
    lemma_ctr_concat, spec_ctr_xor, FileStreamCipher, FileStreamCipherView, Session,
};
use vstd::prelude::*;

verus! {

/// Announcement of an encrypted file stream; it carries the initialisation
/// vector and precedes the data.
#[derive(Debug, Clone)]
pub struct FileStreamInit {
    /// Always `"FILE_STREAM_INIT"`.
    pub msg_type: String,
    pub transfer_id: String,
    pub iv: [u8; 16],
    pub file_size: u64,
}

impl FileStreamInit {
    /// The announcement of a stream.
    pub fn new(transfer_id: String, iv: [u8; 16], file_size: u64) -> (r: FileStreamInit)
        ensures
            r.msg_type@ == "FILE_STREAM_INIT"@,
            r.transfer_id == transfer_id,
            r.iv == iv,
            r.file_size == file_size,
    {
        FileStreamInit { msg_type: "FILE_STREAM_INIT".to_owned(), transfer_id, iv, file_size }
    }
}

/// The number of bytes that one step takes from a stream of which
/// `remaining` bytes are left.
pub open spec fn spec_chunk_len(buffer_size: usize, remaining: int) -> int {
    if remaining < buffer_size {
        remaining
    } else {
        buffer_size as int
    }
}

/// Applies `cipher` to up to `buffer_size` bytes of `reader` from `offset`
/// and appends the result to `writer`. Returns the number of bytes
/// processed; zero means that the stream has ended.
fn transform_chunk(
    cipher: &mut FileStreamCipher,
    buffer_size: usize,
    reader: &[u8],
    offset: usize,
    writer: &mut Vec<u8>,
) -> (n: usize)
    requires
        offset <= reader@.len(),
        old(cipher)@.position + (reader@.len() - offset) <= u64::MAX,
    ensures
        n == spec_chunk_len(buffer_size, reader@.len() - offset),
        final(writer)@ == old(writer)@ + spec_ctr_xor(
            old(cipher)@.key,
            old(cipher)@.iv,
            old(cipher)@.position,
            reader@.subrange(offset as int, offset + n),
        ),
        final(cipher)@ == (FileStreamCipherView {
            position: old(cipher)@.position + n,
            ..old(cipher)@
        }),
{
    let remaining: usize = reader.len() - offset;
    let n: usize = if remaining < buffer_size {
        remaining
    } else {
        buffer_size
    };
    let mut buffer = copy_range(reader, offset, offset + n);
    cipher.apply(&mut buffer);
    extend_bytes(writer, buffer.as_slice());
    n
}

/// Applies `cipher` to the whole of `reader`, `buffer_size` bytes at a
/// time, and appends the result to `writer`. Returns the number of bytes
/// processed. With an empty buffer nothing can be read, and the stream ends
/// at once.
fn transform_stream(
    cipher: &mut FileStreamCipher,
    buffer_size: usize,
    reader: &[u8],
    writer: &mut Vec<u8>,
) -> (total: u64)
    requires
        old(cipher)@.position + reader@.len() <= u64::MAX,
    ensures
        total == (if buffer_size == 0 {
            0
        } else {
            reader@.len() as int
        }),
        final(writer)@ == old(writer)@ + spec_ctr_xor(
            old(cipher)@.key,
            old(cipher)@.iv,
            old(cipher)@.position,
            reader@.subrange(0, total as int),
        ),
        final(cipher)@ == (FileStreamCipherView {
            position: old(cipher)@.position + total,
            ..old(cipher)@
        }),
{
    let len: usize = reader.len();
    let mut total: u64 = 0;
    let mut offset: usize = 0;
    let ghost key = cipher@.key;
    let ghost iv = cipher@.iv;
    let ghost start = cipher@.position;
    assert(spec_ctr_xor(key, iv, start, reader@.subrange(0, 0)) =~= Seq::<u8>::empty());
    assert(writer@ =~= old(writer)@ + Seq::<u8>::empty());
    loop
        invariant
            len == reader@.len(),
            offset <= reader@.len(),
            total == offset,
            start + reader@.len() <= u64::MAX,
            cipher@ == (FileStreamCipherView { key, iv, position: start + offset }),
            writer@ == old(writer)@ + spec_ctr_xor(
                key,
                iv,
                start,
                reader@.subrange(0, offset as int),
            ),
            buffer_size == 0 ==> offset == 0,
        ensures
            buffer_size != 0 ==> offset == reader@.len(),
        decreases reader@.len() - offset,
    {
        let ghost before = writer@;
        let n = transform_chunk(cipher, buffer_size, reader, offset, writer);
        if n == 0 {
            assert(writer@ =~= before);
            break ;
        }
        proof {
            let done = reader@.subrange(0, offset as int);
            let piece = reader@.subrange(offset as int, offset + n);
            lemma_ctr_concat(key, iv, start, done, piece);
            assert(done + piece =~= reader@.subrange(0, offset + n));
            assert(writer@ =~= old(writer)@ + spec_ctr_xor(
                key,
                iv,
                start,
                reader@.subrange(0, offset + n),
            ));
        }
        offset = offset + n;
        total = total + n as u64;
    }
    total
}

/// Encrypts a file stream buffer by buffer.
pub struct StreamEncryptor {
    cipher: FileStreamCipher,
    buffer_size: usize,
}

impl StreamEncryptor {
    /// The cipher and its position.
    pub closed spec fn cipher(&self) -> FileStreamCipherView {
        self.cipher@
    }

    /// The number of bytes processed in one step.
    pub closed spec fn buffer_size(&self) -> usize {
        self.buffer_size
    }

    /// An encryptor under the session's file key, with a freshly drawn
    /// initialisation vector, which must reach the receiver before the
    /// data.
    pub fn new(session: &Session, buffer_size: usize) -> (r: (StreamEncryptor, [u8; 16]))
        ensures
            r.0.cipher() == (FileStreamCipherView {
                key: session@.file_key,
                iv: r.1@,
                position: 0,
            }),
            r.0.buffer_size() == buffer_size,
    {
        let (cipher, iv) = session.create_file_encryptor();
        (StreamEncryptor { cipher, buffer_size }, iv)
    }

    /// Encrypts up to one buffer of `reader`, from `offset`, and appends
    /// the ciphertext to `writer`. Returns the number of bytes processed;
    /// zero means that the stream has ended.
    pub fn encrypt_chunk(&mut self, reader: &[u8], offset: usize, writer: &mut Vec<u8>) -> (n:
        usize)
        requires
            offset <= reader@.len(),
            old(self).cipher().position + (reader@.len() - offset) <= u64::MAX,
        ensures
            n == spec_chunk_len(old(self).buffer_size(), reader@.len() - offset),
            final(writer)@ == old(writer)@ + spec_ctr_xor(
                old(self).cipher().key,
                old(self).cipher().iv,
                old(self).cipher().position,
                reader@.subrange(offset as int, offset + n),
            ),
            final(self).cipher() == (FileStreamCipherView {
                position: old(self).cipher().position + n,
                ..old(self).cipher()
            }),
            final(self).buffer_size() == old(self).buffer_size(),
    {
        transform_chunk(&mut self.cipher, self.buffer_size, reader, offset, writer)
    }

    /// Encrypts the whole of `reader` and appends the ciphertext to
    /// `writer`. Returns the number of bytes encrypted: all of them, unless
    /// the buffer is empty, in which case nothing is read.
    pub fn encrypt_stream(&mut self, reader: &[u8], writer: &mut Vec<u8>) -> (total: u64)
        requires
            old(self).cipher().position + reader@.len() <= u64::MAX,
        ensures
            total == (if old(self).buffer_size() == 0 {
                0
            } else {
                reader@.len() as int
            }),
            final(writer)@ == old(writer)@ + spec_ctr_xor(
                old(self).cipher().key,
                old(self).cipher().iv,
                old(self).cipher().position,
                reader@.subrange(0, total as int),
            ),
            final(self).cipher() == (FileStreamCipherView {
                position: old(self).cipher().position + total,
                ..old(self).cipher()
            }),
            final(self).buffer_size() == old(self).buffer_size(),
    {
        transform_stream(&mut self.cipher, self.buffer_size, reader, writer)
    }
}

/// Decrypts a file stream buffer by buffer.
pub struct StreamDecryptor {
    pub cipher: FileStreamCipher,
    buffer_size: usize,
}

impl StreamDecryptor {
    /// The cipher and its position.
    pub closed spec fn cipher(&self) -> FileStreamCipherView {
        self.cipher@
    }

    /// The number of bytes processed in one step.
    pub closed spec fn buffer_size(&self) -> usize {
        self.buffer_size
    }

    /// A decryptor under the session's file key for the sender's
    /// initialisation vector.
    pub fn new(session: &Session, iv: &[u8; 16], buffer_size: usize) -> (r: StreamDecryptor)
        ensures
            r.cipher() == (FileStreamCipherView {
                key: session@.file_key,
                iv: iv@,
                position: 0,
            }),
            r.buffer_size() == buffer_size,
    {
        StreamDecryptor { cipher: session.create_file_decryptor(iv), buffer_size }
    }

    /// Decrypts up to one buffer of `reader`, from `offset`, and appends
    /// the plaintext to `writer`. Returns the number of bytes processed;
    /// zero means that the stream has ended.
    pub fn decrypt_chunk(&mut self, reader: &[u8], offset: usize, writer: &mut Vec<u8>) -> (n:
        usize)
        requires
            offset <= reader@.len(),
            old(self).cipher().position + (reader@.len() - offset) <= u64::MAX,
        ensures
            n == spec_chunk_len(old(self).buffer_size(), reader@.len() - offset),
            final(writer)@ == old(writer)@ + spec_ctr_xor(
                old(self).cipher().key,
                old(self).cipher().iv,
                old(self).cipher().position,
                reader@.subrange(offset as int, offset + n),
            ),
            final(self).cipher() == (FileStreamCipherView {
                position: old(self).cipher().position + n,
                ..old(self).cipher()
            }),
            final(self).buffer_size() == old(self).buffer_size(),
    {
        transform_chunk(&mut self.cipher, self.buffer_size, reader, offset, writer)
    }

    /// Decrypts the whole of `reader` and appends the plaintext to
    /// `writer`. Returns the number of bytes decrypted: all of them, unless
    /// the buffer is empty, in which case nothing is read.
    pub fn decrypt_stream(&mut self, reader: &[u8], writer: &mut Vec<u8>) -> (total: u64)
        requires
            old(self).cipher().position + reader@.len() <= u64::MAX,
        ensures
            total == (if old(self).buffer_size() == 0 {
                0
            } else {
                reader@.len() as int
            }),
            final(writer)@ == old(writer)@ + spec_ctr_xor(
                old(self).cipher().key,
                old(self).cipher().iv,
                old(self).cipher().position,
                reader@.subrange(0, total as int),
            ),
            final(self).cipher() == (FileStreamCipherView {
                position: old(self).cipher().position + total,
                ..old(self).cipher()
            }),
            final(self).buffer_size() == old(self).buffer_size(),
    {
        transform_stream(&mut self.cipher, self.buffer_size, reader, writer)
    }
}

} // verus!
