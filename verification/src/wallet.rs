//! Keeping a wallet secret under a password: the secret is combined with the
//! SHA-256 digest of the password, byte by byte, and written as base64.

use crate::digest::{sha256, sha256_digest};
use crate::text::string_from_utf8;
use vstd::prelude::*;
use vstd::utf8::{decode_utf8, encode_utf8, valid_utf8};

verus! {

/// The base64 text that `base64::encode` writes for `data`.
pub uninterp spec fn base64_text(data: Seq<u8>) -> Seq<char>;

/// The bytes that `base64::decode` reads from `text`; nothing where the text
/// is no base64.
pub uninterp spec fn base64_bytes(text: Seq<char>) -> Option<Seq<u8>>;

/// Optional bytes as a sequence.
pub open spec fn bytes_of(r: Option<Vec<u8>>) -> Option<Seq<u8>> {
    match r {
        Some(bytes) => Some(bytes@),
        None => None,
    }
}

/// Calls `base64::encode`, which writes bytes in the standard alphabet with
/// padding. The contract names the result and says that `base64::decode`
/// reads back from it the bytes that were written.
#[allow(deprecated)]
#[verifier::external_body]
fn base64_encode(data: &Vec<u8>) -> (text: String)
    ensures
        text@ == base64_text(data@),
        base64_bytes(text@) == Some(data@),
{
    base64::encode(data)
}

/// Calls `base64::decode`, which reads bytes from text in the standard
/// alphabet with padding and refuses other text. The contract only names
/// the result.
#[allow(deprecated)]
#[verifier::external_body]
fn base64_decode(text: &str) -> (r: Option<Vec<u8>>)
    ensures
        bytes_of(r) == base64_bytes(text@),
{
    base64::decode(text).ok()
}

/// Why a secret could not be read.
#[derive(Clone, Copy, Debug, PartialEq, Eq, Structural)]
pub enum DecryptError {
    /// The stored text is no base64.
    InvalidFormat,
    /// What comes out is no text: the password is wrong.
    NotText,
}

/// `data` with each byte combined, by exclusive or, with the byte of `key`
/// at the same place; the key is used over and over.
pub open spec fn keyed(data: Seq<u8>, key: Seq<u8>) -> Seq<u8>
    recommends
        key.len() > 0,
{
    Seq::new(data.len(), |i: int| data[i] ^ key[i % (key.len() as int)])
}

/// The text under which `data` is kept with `password`.
pub open spec fn encrypted(data: Seq<char>, password: Seq<char>) -> Seq<char> {
    base64_text(keyed(encode_utf8(data), sha256(encode_utf8(password))))
}

/// What reading the kept text `stored` with `password` gives.
pub open spec fn decrypted(stored: Seq<char>, password: Seq<char>) -> Result<Seq<char>, DecryptError> {
    match base64_bytes(stored) {
        None => Err(DecryptError::InvalidFormat),
        Some(bytes) => {
            let plain = keyed(bytes, sha256(encode_utf8(password)));
            if valid_utf8(plain) {
                Ok(decode_utf8(plain))
            } else {
                Err(DecryptError::NotText)
            }
        },
    }
}

/// A result of reading a secret, the secret as characters.
pub open spec fn secret_view(r: Result<String, DecryptError>) -> Result<Seq<char>, DecryptError> {
    match r {
        Ok(text) => Ok(text@),
        Err(error) => Err(error),
    }
}

/// Combining twice with the same key gives the data back.
pub proof fn lemma_keyed_twice(data: Seq<u8>, key: Seq<u8>)
    requires
        key.len() > 0,
    ensures
        keyed(keyed(data, key), key) == data,
{
    assert forall|i: int| 0 <= i < data.len() implies keyed(keyed(data, key), key)[i] == data[i] by {
        let d = data[i];
        let k = key[i % (key.len() as int)];
        assert((d ^ k) ^ k == d) by (bit_vector);
    }
    assert(keyed(keyed(data, key), key) =~= data);
}

impl DecryptError {
    /// What to tell the caller.
    pub fn message(&self) -> (text: String)
        ensures
            text@ == match *self {
                DecryptError::InvalidFormat => "Invalid encrypted data format"@,
                DecryptError::NotText => "Failed to decrypt data"@,
            },
    {
        match self {
            DecryptError::InvalidFormat => "Invalid encrypted data format".to_owned(),
            DecryptError::NotText => "Failed to decrypt data".to_owned(),
        }
    }
}

/// Combines each byte of `data` with the byte of the 32-byte `key` at the
/// same place.
fn apply_key(data: &[u8], key: &Vec<u8>) -> (out: Vec<u8>)
    requires
        key@.len() == 32,
    ensures
        out@ == keyed(data@, key@),
{
    let mut out: Vec<u8> = Vec::new();
    let mut i: usize = 0;
    while i < data.len()
        invariant
            i <= data.len(),
            key@.len() == 32,
            out@ == keyed(data@, key@).take(i as int),
        decreases data.len() - i,
    {
        out.push(data[i] ^ key[i % 32]);
        assert(keyed(data@, key@).take(i + 1) == keyed(data@, key@).take(i as int).push(
            data@[i as int] ^ key@[(i as int) % 32],
        ));
        i += 1;
    }
    out
}

/// Puts `data` under `password`. What is put under a password is read with
/// the same password.
pub fn simple_encrypt(data: &str, password: &str) -> (stored: String)
    ensures
        stored@ == encrypted(data@, password@),
        decrypted(stored@, password@) == Ok::<Seq<char>, DecryptError>(data@),
{
    let key = sha256_digest(password.as_bytes());
    let combined = apply_key(data.as_bytes(), &key);
    proof {
        lemma_keyed_twice(encode_utf8(data@), key@);
        vstd::utf8::encode_utf8_valid_utf8(data@);
        vstd::utf8::encode_utf8_decode_utf8(data@);
    }
    base64_encode(&combined)
}

/// Reads what was put under `password`. Text that is no base64 is refused;
/// a wrong password shows where what comes out is no text.
pub fn simple_decrypt(encrypted_data: &str, password: &str) -> (r: Result<String, DecryptError>)
    ensures
        secret_view(r) == decrypted(encrypted_data@, password@),
{
    let bytes = match base64_decode(encrypted_data) {
        Some(bytes) => bytes,
        None => {
            return Err(DecryptError::InvalidFormat);
        },
    };
    let key = sha256_digest(password.as_bytes());
    let plain = apply_key(bytes.as_slice(), &key);
    match string_from_utf8(plain) {
        Some(text) => Ok(text),
        None => Err(DecryptError::NotText),
    }
}

} // verus!
