//! Encryption of control messages.
//!
//! A message is JSON text. It is sealed with AES-256-GCM under the
//! session's message key and travels as an envelope whose nonce, tag and
//! ciphertext are base64 text.

use crate::bytes::{array_from_slice, copy_range};
use crate::crypto::primitives::{
    base64_decode, base64_decode_spec, base64_encode, base64_encode_spec, json_string_field,
    json_string_field_spec,
};
use crate::crypto::session::{
    lemma_message_roundtrip, spec_open_message, spec_seal_message, EncryptedMessage,
    EncryptedMessageView, Session,
};
use crate::crypto::{CryptoError, MAX_MESSAGE_SIZE};
use crate::outside_std::{str_concat, string_from_utf8};
use vstd::prelude::*;
use vstd::utf8::{
    decode_utf8, encode_utf8, encode_utf8_decode_utf8, encode_utf8_valid_utf8, valid_utf8,
};

verus! {

/// Encrypted message as it is put on the wire.
#[derive(Debug, Clone)]
pub struct EncryptedMessagePayload {
    /// Always `"ENCRYPTED_MESSAGE"`.
    pub msg_type: String,
    pub iv: [u8; 12],
    pub tag: [u8; 16],
    pub payload: Vec<u8>,
}

impl EncryptedMessagePayload {
    /// The encrypted message that the envelope carries.
    pub open spec fn spec_encrypted(&self) -> EncryptedMessageView {
        EncryptedMessageView { payload: self.payload@, nonce: self.iv@, tag: self.tag@ }
    }

    /// The envelope of an encrypted message.
    pub fn from_encrypted(encrypted: EncryptedMessage) -> (r: EncryptedMessagePayload)
        ensures
            r.msg_type@ == "ENCRYPTED_MESSAGE"@,
            r.spec_encrypted() == encrypted@,
    {
        EncryptedMessagePayload {
            msg_type: "ENCRYPTED_MESSAGE".to_owned(),
            iv: encrypted.nonce,
            tag: encrypted.tag,
            payload: encrypted.payload,
        }
    }

    /// The encrypted message that this envelope carries.
    pub fn to_encrypted(&self) -> (r: EncryptedMessage)
        ensures
            r@ == self.spec_encrypted(),
    {
        let payload = copy_range(self.payload.as_slice(), 0, self.payload.len());
        assert(payload@ =~= self.payload@);
        EncryptedMessage { payload, nonce: self.iv, tag: self.tag }
    }

    /// The JSON text of this envelope, as it is put into a frame.
    pub fn to_json(&self) -> (r: String)
        ensures
            r@ == spec_envelope_json(self.spec_encrypted()),
    {
        let iv = base64_serialize(self.iv.as_slice());
        let tag = base64_serialize(self.tag.as_slice());
        let payload = base64_serialize(self.payload.as_slice());
        let a = str_concat("{\"type\":\"ENCRYPTED_MESSAGE\",\"iv\":\"", iv.as_str());
        let b = str_concat(a.as_str(), "\",\"tag\":\"");
        let c = str_concat(b.as_str(), tag.as_str());
        let d = str_concat(c.as_str(), "\",\"payload\":\"");
        let e = str_concat(d.as_str(), payload.as_str());
        str_concat(e.as_str(), "\"}")
    }

    /// The envelope that a JSON text holds. Every failure is the one error
    /// `AuthFailure`.
    pub fn from_json(text: &str) -> (r: Result<EncryptedMessagePayload, CryptoError>)
        ensures
            match r {
                Ok(p) => spec_envelope_from_json(text@) == Some(p.spec_encrypted()),
                Err(e) => e == CryptoError::AuthFailure && spec_envelope_from_json(text@) is None,
            },
    {
        let kind = match json_string_field(text, "type") {
            Some(Some(k)) => k,
            _ => {
                return Err(CryptoError::AuthFailure);
            },
        };
        let iv = match json_string_field(text, "iv") {
            Some(Some(v)) => v,
            _ => {
                return Err(CryptoError::AuthFailure);
            },
        };
        let tag = match json_string_field(text, "tag") {
            Some(Some(v)) => v,
            _ => {
                return Err(CryptoError::AuthFailure);
            },
        };
        let payload = match json_string_field(text, "payload") {
            Some(Some(v)) => v,
            _ => {
                return Err(CryptoError::AuthFailure);
            },
        };
        match EncryptedMessagePayload::from_base64_fields(
            iv.as_str(),
            tag.as_str(),
            payload.as_str(),
        ) {
            Ok(mut p) => {
                p.msg_type = kind;
                Ok(p)
            },
            Err(e) => Err(e),
        }
    }

    /// The envelope whose three binary fields are the given base64 texts.
    /// Any text that is not base64, a nonce that is not 12 bytes or a tag
    /// that is not 16 bytes gives `AuthFailure`.
    pub fn from_base64_fields(iv: &str, tag: &str, payload: &str) -> (r: Result<
        EncryptedMessagePayload,
        CryptoError,
    >)
        ensures
            match r {
                Ok(p) => {
                    &&& p.msg_type@ == "ENCRYPTED_MESSAGE"@
                    &&& spec_base64_fixed(iv@, 12) == Some(p.iv@)
                    &&& spec_base64_fixed(tag@, 16) == Some(p.tag@)
                    &&& base64_decode_spec(payload@) == Some(p.payload@)
                },
                Err(e) => {
                    &&& e == CryptoError::AuthFailure
                    &&& (spec_base64_fixed(iv@, 12) is None || spec_base64_fixed(tag@, 16) is None
                        || base64_decode_spec(payload@) is None)
                },
            },
    {
        let iv_bytes: [u8; 12] = match base64_deserialize::<12>(iv) {
            Some(b) => b,
            None => {
                return Err(CryptoError::AuthFailure);
            },
        };
        let tag_bytes: [u8; 16] = match base64_deserialize::<16>(tag) {
            Some(b) => b,
            None => {
                return Err(CryptoError::AuthFailure);
            },
        };
        let payload_bytes = match base64_decode(payload) {
            Some(b) => b,
            None => {
                return Err(CryptoError::AuthFailure);
            },
        };
        Ok(
            EncryptedMessagePayload {
                msg_type: "ENCRYPTED_MESSAGE".to_owned(),
                iv: iv_bytes,
                tag: tag_bytes,
                payload: payload_bytes,
            },
        )
    }
}

/// The JSON text of an envelope with the given nonce, tag and ciphertext:
/// an object with the members `type`, `iv`, `tag` and `payload`, in this
/// order, the last three in base64.
pub open spec fn spec_envelope_json(m: EncryptedMessageView) -> Seq<char> {
    "{\"type\":\"ENCRYPTED_MESSAGE\",\"iv\":\""@ + base64_encode_spec(m.nonce) + "\",\"tag\":\""@
        + base64_encode_spec(m.tag) + "\",\"payload\":\""@ + base64_encode_spec(m.payload)
        + "\"}"@
}

/// The envelope that a JSON text holds; `AuthFailure` where the text is
/// not JSON, lacks one of the members `type`, `iv`, `tag` and `payload` as
/// a string, or holds a binary member that is not base64 of the right
/// length.
pub open spec fn spec_envelope_from_json(text: Seq<char>) -> Option<EncryptedMessageView> {
    match (
        json_string_field_spec(text, "type"@),
        json_string_field_spec(text, "iv"@),
        json_string_field_spec(text, "tag"@),
        json_string_field_spec(text, "payload"@),
    ) {
        (Some(Some(_)), Some(Some(iv_text)), Some(Some(tag_text)), Some(Some(payload_text))) => {
            match (
                spec_base64_fixed(iv_text, 12),
                spec_base64_fixed(tag_text, 16),
                base64_decode_spec(payload_text),
            ) {
                (Some(nonce), Some(tag), Some(payload)) => Some(
                    EncryptedMessageView { payload, nonce, tag },
                ),
                _ => None,
            }
        },
        _ => None,
    }
}

/// The bytes that base64 text stands for, where they are exactly `n` bytes.
pub open spec fn spec_base64_fixed(text: Seq<char>, n: nat) -> Option<Seq<u8>> {
    match base64_decode_spec(text) {
        Some(bytes) => if bytes.len() == n {
            Some(bytes)
        } else {
            None
        },
        None => None,
    }
}

/// The base64 text of a binary field. Reading it back gives the bytes.
pub fn base64_serialize(bytes: &[u8]) -> (r: String)
    ensures
        r@ == base64_encode_spec(bytes@),
        base64_decode_spec(r@) == Some(bytes@),
        spec_base64_fixed(r@, bytes@.len()) == Some(bytes@),
{
    base64_encode(bytes)
}

/// The `N` bytes that a base64 text stands for; `None` where the text is
/// not base64 or stands for another number of bytes.
pub fn base64_deserialize<const N: usize>(text: &str) -> (r: Option<[u8; N]>)
    ensures
        match r {
            Some(bytes) => spec_base64_fixed(text@, N as nat) == Some(bytes@),
            None => spec_base64_fixed(text@, N as nat) is None,
        },
{
    match base64_decode(text) {
        Some(decoded) => {
            if decoded.len() != N {
                None
            } else {
                let bytes: [u8; N] = array_from_slice::<N>(decoded.as_slice(), 0);
                assert(bytes@ =~= decoded@);
                Some(bytes)
            }
        },
        None => None,
    }
}

/// What decrypting an envelope under a key yields: the text of the
/// plaintext, or `AuthFailure` where the envelope does not authenticate or
/// its plaintext is not UTF-8.
pub open spec fn spec_decrypt_message(key: Seq<u8>, m: EncryptedMessageView) -> Result<
    Seq<char>,
    CryptoError,
> {
    match spec_open_message(key, m) {
        Some(plaintext) => if valid_utf8(plaintext) {
            Ok(decode_utf8(plaintext))
        } else {
            Err(CryptoError::AuthFailure)
        },
        None => Err(CryptoError::AuthFailure),
    }
}

/// Decrypting the envelope of a text gives the text back, for every key
/// and nonce and every text that may be encrypted.
pub proof fn lemma_text_roundtrip(key: Seq<u8>, nonce: Seq<u8>, text: Seq<char>)
    requires
        encode_utf8(text).len() <= MAX_MESSAGE_SIZE,
    ensures
        spec_decrypt_message(key, spec_seal_message(key, nonce, encode_utf8(text))) == Ok::<
            Seq<char>,
            CryptoError,
        >(text),
{
    lemma_message_roundtrip(key, nonce, encode_utf8(text));
    encode_utf8_valid_utf8(text);
    encode_utf8_decode_utf8(text);
}

/// Encrypts a protocol message. Fails with `MessageTooLarge` exactly when
/// the text is longer than `MAX_MESSAGE_SIZE` bytes. The envelope decrypts,
/// under any session with the same message key, to the text.
pub fn encrypt_message(session: &Session, message_json: &str) -> (r: Result<
    EncryptedMessagePayload,
    CryptoError,
>)
    ensures
        r is Ok <==> encode_utf8(message_json@).len() <= MAX_MESSAGE_SIZE,
        r matches Ok(p) ==> {
            &&& p.msg_type@ == "ENCRYPTED_MESSAGE"@
            &&& p.spec_encrypted() == spec_seal_message(
                session@.message_key,
                p.iv@,
                encode_utf8(message_json@),
            )
            &&& p.payload@.len() == encode_utf8(message_json@).len()
            &&& spec_decrypt_message(session@.message_key, p.spec_encrypted()) == Ok::<
                Seq<char>,
                CryptoError,
            >(message_json@)
        },
        r matches Err(e) ==> e == CryptoError::MessageTooLarge,
{
    let plaintext = message_json.as_bytes();
    if plaintext.len() > MAX_MESSAGE_SIZE {
        return Err(CryptoError::MessageTooLarge);
    }
    proof {
        encode_utf8_valid_utf8(message_json@);
        encode_utf8_decode_utf8(message_json@);
    }
    match session.encrypt_message(plaintext) {
        Ok(encrypted) => Ok(EncryptedMessagePayload::from_encrypted(encrypted)),
        Err(e) => Err(e),
    }
}

/// Decrypts a protocol message. Every failure is the one error
/// `AuthFailure`.
pub fn decrypt_message(session: &Session, encrypted_payload: &EncryptedMessagePayload) -> (r:
    Result<String, CryptoError>)
    ensures
        match r {
            Ok(text) => spec_decrypt_message(
                session@.message_key,
                encrypted_payload.spec_encrypted(),
            ) == Ok::<Seq<char>, CryptoError>(text@),
            Err(e) => e == CryptoError::AuthFailure && spec_decrypt_message(
                session@.message_key,
                encrypted_payload.spec_encrypted(),
            ) is Err,
        },
{
    let encrypted = encrypted_payload.to_encrypted();
    let plaintext = match session.decrypt_message(&encrypted) {
        Ok(p) => p,
        Err(_) => {
            return Err(CryptoError::AuthFailure);
        },
    };
    match string_from_utf8(plaintext) {
        Some(text) => Ok(text),
        None => Err(CryptoError::AuthFailure),
    }
}

} // verus!
