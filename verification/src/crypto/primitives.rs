//! The cryptographic primitives, as the outside crates provide them.
//!
//! Nothing in this file is proved. Each function is one call into an outside
//! crate, and its contract records what that crate documents. Results that
//! only the primitive itself can compute are given a name, so that the
//! verified code can say precisely where each value comes from.

use aes_gcm::aead::Aead;
use aes_gcm::KeyInit;
use base64::Engine;
use ctr::cipher::{KeyIvInit, StreamCipher, StreamCipherSeek};
use rand_core::RngCore;
use sha2::Digest;
use vstd::prelude::*;

verus! {

/// Largest plaintext that AES-GCM accepts: 2^36 bytes.
pub const GCM_MAX_PLAINTEXT: u64 = 0x10_0000_0000;

/// Length of the AES-GCM authentication tag.
pub const GCM_TAG_LEN: usize = 16;

/// The X25519 function of RFC 7748: scalar `k` applied to u-coordinate `u`.
pub uninterp spec fn x25519_spec(k: Seq<u8>, u: Seq<u8>) -> Seq<u8>;

/// The u-coordinate of the X25519 base point: 9, then 31 zero bytes.
pub open spec fn spec_x25519_basepoint() -> Seq<u8> {
    Seq::new(32, |i: int| if i == 0 { 9u8 } else { 0u8 })
}

/// The public key that belongs to a secret.
pub open spec fn spec_public_key(secret: Seq<u8>) -> Seq<u8> {
    x25519_spec(secret, spec_x25519_basepoint())
}

/// HKDF-SHA256 with no salt: 32 bytes expanded from `ikm` under `info`.
pub uninterp spec fn hkdf_sha256_spec(ikm: Seq<u8>, info: Seq<u8>) -> Seq<u8>;

/// Byte `index` of the keystream with which AES-256-GCM encrypts under a
/// key and a 96-bit nonce.
pub uninterp spec fn aes256_gcm_keystream_spec(key: Seq<u8>, nonce: Seq<u8>, index: int) -> u8;

/// The 16-byte tag with which AES-256-GCM authenticates a ciphertext under
/// a key and a 96-bit nonce, with empty associated data.
pub uninterp spec fn aes256_gcm_tag_spec(key: Seq<u8>, nonce: Seq<u8>, ciphertext: Seq<u8>) -> Seq<
    u8,
>;

/// Byte `index` of the AES-256-CTR keystream (128-bit big-endian counter)
/// for a key and an initialisation vector.
pub uninterp spec fn aes256_ctr_keystream_spec(key: Seq<u8>, iv: Seq<u8>, index: int) -> u8;

/// Standard padded base64 text of some bytes.
pub uninterp spec fn base64_encode_spec(bytes: Seq<u8>) -> Seq<char>;

/// The bytes that standard padded base64 text stands for, if it is valid.
pub uninterp spec fn base64_decode_spec(text: Seq<char>) -> Option<Seq<u8>>;

/// Lower-case hexadecimal SHA-256 digest of some bytes.
pub uninterp spec fn sha256_hex_spec(data: Seq<u8>) -> Seq<char>;

/// The string under a key of a JSON text: `None` where the text is not
/// JSON, `Some(None)` where it has no string under that key.
pub uninterp spec fn json_string_field_spec(text: Seq<char>, key: Seq<char>) -> Option<
    Option<Seq<char>>,
>;

/// `x25519_dalek::X25519_BASEPOINT_BYTES`.
#[verifier::external_body]
pub(crate) fn x25519_basepoint() -> (r: [u8; 32])
    ensures
        r@ == spec_x25519_basepoint(),
{
    x25519_dalek::X25519_BASEPOINT_BYTES
}

/// `x25519_dalek::x25519`. The result is the named X25519 value. The second
/// clause is Diffie-Hellman agreement: where `u` is the public key of some
/// secret `b`, the result is what `b` applied to the public key of `k` gives.
#[verifier::external_body]
pub(crate) fn x25519(k: &[u8; 32], u: &[u8; 32]) -> (r: [u8; 32])
    ensures
        r@ == x25519_spec(k@, u@),
        forall|b: Seq<u8>|
            b.len() == 32 && u@ == #[trigger] spec_public_key(b) ==> r@ == x25519_spec(
                b,
                spec_public_key(k@),
            ),
{
    x25519_dalek::x25519(*k, *u)
}

/// `Hkdf::<Sha256>::new(None, ikm)` followed by `expand(info, ..)` into 32
/// bytes. Expansion fails only for outputs longer than 255 hash blocks, so
/// it always succeeds here.
#[verifier::external_body]
pub(crate) fn hkdf_sha256_expand(ikm: &[u8], info: &[u8]) -> (r: Option<[u8; 32]>)
    ensures
        r is Some,
        r matches Some(okm) ==> okm@ == hkdf_sha256_spec(ikm@, info@),
{
    let mut okm = [0u8; 32];
    match hkdf::Hkdf::<sha2::Sha256>::new(None, ikm).expand(info, &mut okm) {
        Ok(()) => Some(okm),
        Err(_) => None,
    }
}

/// `Aes256Gcm::encrypt` with an empty associated data. It fails exactly when
/// the plaintext is longer than 2^36 bytes. Otherwise the output is the
/// ciphertext, each byte the plaintext byte XORed with the keystream byte
/// at its position, followed by the tag of that ciphertext.
#[verifier::external_body]
pub(crate) fn aes256_gcm_seal(key: &[u8; 32], nonce: &[u8; 12], plaintext: &[u8]) -> (r: Option<
    Vec<u8>,
>)
    ensures
        r is Some <==> plaintext@.len() <= GCM_MAX_PLAINTEXT,
        r matches Some(sealed) ==> {
            &&& sealed@.len() == plaintext@.len() + GCM_TAG_LEN
            &&& forall|i: int|
                0 <= i < plaintext@.len() ==> #[trigger] sealed@[i] == plaintext@[i]
                    ^ aes256_gcm_keystream_spec(key@, nonce@, i)
            &&& sealed@.subrange(plaintext@.len() as int, sealed@.len() as int)
                == aes256_gcm_tag_spec(key@, nonce@, sealed@.subrange(0, plaintext@.len() as int))
        },
{
    let cipher = aes_gcm::Aes256Gcm::new(aes_gcm::Key::<aes_gcm::Aes256Gcm>::from_slice(key));
    cipher.encrypt(aes_gcm::Nonce::from_slice(nonce), plaintext).ok()
}

/// Whether the last 16 bytes of `sealed` are the tag of what precedes them.
pub open spec fn spec_gcm_authentic(key: Seq<u8>, nonce: Seq<u8>, sealed: Seq<u8>) -> bool {
    let n = sealed.len() - GCM_TAG_LEN;
    n >= 0 && sealed.subrange(n, sealed.len() as int) == aes256_gcm_tag_spec(
        key,
        nonce,
        sealed.subrange(0, n),
    )
}

/// `Aes256Gcm::decrypt` with an empty associated data, on a ciphertext of
/// at most 2^36 bytes followed by its tag. It succeeds exactly when the
/// last 16 bytes are the tag of what precedes them; the plaintext is then
/// the ciphertext, each byte XORed with the keystream byte at its position.
#[verifier::external_body]
pub(crate) fn aes256_gcm_open(key: &[u8; 32], nonce: &[u8; 12], sealed: &[u8]) -> (r: Option<
    Vec<u8>,
>)
    requires
        sealed@.len() <= GCM_MAX_PLAINTEXT + GCM_TAG_LEN,
    ensures
        r is Some <==> spec_gcm_authentic(key@, nonce@, sealed@),
        r matches Some(plaintext) ==> {
            &&& plaintext@.len() + GCM_TAG_LEN == sealed@.len()
            &&& forall|i: int|
                0 <= i < plaintext@.len() ==> #[trigger] plaintext@[i] == sealed@[i]
                    ^ aes256_gcm_keystream_spec(key@, nonce@, i)
        },
{
    let cipher = aes_gcm::Aes256Gcm::new(aes_gcm::Key::<aes_gcm::Aes256Gcm>::from_slice(key));
    cipher.decrypt(aes_gcm::Nonce::from_slice(nonce), sealed).ok()
}

/// `Ctr128BE::<Aes256>`: a cipher made from key and initialisation vector,
/// moved to byte `pos` of its keystream with `seek` and applied with
/// `apply_keystream`. Each byte of the buffer is XORed with the keystream
/// byte at its position; the length does not change.
#[verifier::external_body]
pub(crate) fn aes256_ctr_apply(key: &[u8; 32], iv: &[u8; 16], pos: u64, buf: &mut Vec<u8>)
    ensures
        final(buf)@.len() == old(buf)@.len(),
        forall|i: int|
            0 <= i < old(buf)@.len() ==> #[trigger] final(buf)@[i] == old(buf)@[i]
                ^ aes256_ctr_keystream_spec(key@, iv@, pos + i),
{
    let mut cipher = ctr::Ctr128BE::<aes::Aes256>::new(
        ctr::cipher::generic_array::GenericArray::from_slice(key),
        ctr::cipher::generic_array::GenericArray::from_slice(iv),
    );
    cipher.seek(pos);
    cipher.apply_keystream(buf.as_mut_slice());
}

/// `OsRng.fill_bytes` on a fresh array. Nothing is known of the bytes.
#[verifier::external_body]
pub(crate) fn os_random_bytes<const N: usize>() -> (r: [u8; N]) {
    let mut bytes = [0u8; N];
    rand_core::OsRng.fill_bytes(&mut bytes);
    bytes
}

/// `STANDARD.encode` of the base64 crate. Decoding the text gives the bytes.
#[verifier::external_body]
pub(crate) fn base64_encode(bytes: &[u8]) -> (r: String)
    ensures
        r@ == base64_encode_spec(bytes@),
        base64_decode_spec(r@) == Some(bytes@),
{
    base64::engine::general_purpose::STANDARD.encode(bytes)
}

/// `STANDARD.decode` of the base64 crate.
#[verifier::external_body]
pub(crate) fn base64_decode(text: &str) -> (r: Option<Vec<u8>>)
    ensures
        r is Some <==> base64_decode_spec(text@) is Some,
        r matches Some(bytes) ==> base64_decode_spec(text@) == Some(bytes@),
{
    base64::engine::general_purpose::STANDARD.decode(text).ok()
}

/// `Sha256::digest`, formatted as lower-case hexadecimal.
#[verifier::external_body]
pub(crate) fn sha256_hex(data: &[u8]) -> (r: String)
    ensures
        r@ == sha256_hex_spec(data@),
{
    format!("{:x}", sha2::Sha256::digest(data))
}

/// `serde_json::from_str` into a `Value`, then `get(key)` and `as_str`.
#[verifier::external_body]
pub(crate) fn json_string_field(text: &str, key: &str) -> (r: Option<Option<String>>)
    ensures
        r is Some <==> json_string_field_spec(text@, key@) is Some,
        r matches Some(field) ==> (field is Some <==> json_string_field_spec(text@, key@)->Some_0
            is Some),
        r matches Some(Some(value)) ==> json_string_field_spec(text@, key@) == Some(
            Some(value@),
        ),
{
    match serde_json::from_str::<serde_json::Value>(text) {
        Ok(value) => Some(value.get(key).and_then(serde_json::Value::as_str).map(str::to_string)),
        Err(_) => None,
    }
}

/// `Uuid::new_v4`, as text. The identifier is random: nothing is known of
/// it.
#[verifier::external_body]
pub(crate) fn new_uuid_v4() -> (r: String) {
    uuid::Uuid::new_v4().to_string()
}

} // verus!
