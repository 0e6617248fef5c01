//! Authenticated encryption of byte payloads under a 256-bit key.
//!
//! A sealed message is framed as `nonce || ciphertext || tag`: the first
//! twelve bytes are the nonce that the message was sealed with, the last
//! sixteen the authentication tag.

use aes_gcm::aead::generic_array::GenericArray;
use aes_gcm::aead::{Aead, OsRng};
use aes_gcm::{AeadCore, Aes256Gcm, KeyInit};
use vstd::prelude::*;
use vstd::slice::slice_subrange;

verus! {

/// Length of a cipher key in bytes.
pub const KEY_LEN: usize = 32;

/// Length of a nonce in bytes.
pub const NONCE_LEN: usize = 12;

/// Length of an authentication tag in bytes.
pub const TAG_LEN: usize = 16;

/// Longest plaintext, in bytes, that one call can seal.
pub const MAX_PLAINTEXT_LEN: u64 = 0x10_0000_0000;

/// Why a payload could not be sealed or opened.
#[derive(Debug, Clone, Copy, PartialEq, Eq, Structural)]
pub enum CipherError {
    /// The input is too short to hold a nonce.
    FormatError,
    /// The tag does not match: the key is wrong or the data was altered.
    AuthenticationFailure,
    /// The plaintext is longer than the cipher can seal in one message.
    PlaintextTooLong,
}

impl CipherError {
    /// The text that describes the error.
    pub open spec fn message_spec(self) -> Seq<char> {
        match self {
            CipherError::FormatError => "cipher text too short"@,
            CipherError::AuthenticationFailure => "aead::Error"@,
            CipherError::PlaintextTooLong => "aead::Error"@,
        }
    }

    /// The text that describes the error. A wrong key and altered data read
    /// the same.
    pub fn message(&self) -> (r: String)
        ensures
            r@ == self.message_spec(),
    {
        match self {
            CipherError::FormatError => "cipher text too short".to_owned(),
            CipherError::AuthenticationFailure => "aead::Error".to_owned(),
            CipherError::PlaintextTooLong => "aead::Error".to_owned(),
        }
    }
}

/// What AES-256-GCM produces for `plaintext` under `key` and `nonce`, with no
/// associated data: ciphertext followed by the tag, or `None` where the
/// cipher refuses the plaintext.
pub uninterp spec fn aes_gcm_seal(key: Seq<u8>, nonce: Seq<u8>, plaintext: Seq<u8>) -> Option<
    Seq<u8>,
>;

/// What AES-256-GCM recovers from `sealed` (ciphertext followed by the tag)
/// under `key` and `nonce`, with no associated data, or `None` where it
/// rejects the input.
pub uninterp spec fn aes_gcm_open(key: Seq<u8>, nonce: Seq<u8>, sealed: Seq<u8>) -> Option<
    Seq<u8>,
>;

/// `blob` is a framed message that opens to `plaintext` under `key`.
pub open spec fn is_sealed(key: Seq<u8>, plaintext: Seq<u8>, blob: Seq<u8>) -> bool {
    &&& blob.len() == NONCE_LEN + plaintext.len() + TAG_LEN
    &&& aes_gcm_open(
        key,
        blob.subrange(0, NONCE_LEN as int),
        blob.subrange(NONCE_LEN as int, blob.len() as int),
    ) == Some(plaintext)
}

/// The framed message for `plaintext` sealed under `key` with `nonce`.
pub open spec fn encode_spec(key: Seq<u8>, nonce: Seq<u8>, plaintext: Seq<u8>) -> Result<
    Seq<u8>,
    CipherError,
> {
    match aes_gcm_seal(key, nonce, plaintext) {
        Some(sealed) => Ok(nonce + sealed),
        None => Err(CipherError::PlaintextTooLong),
    }
}

/// What opening the framed message `data` under `key` yields.
pub open spec fn decode_spec(key: Seq<u8>, data: Seq<u8>) -> Result<Seq<u8>, CipherError> {
    if data.len() < NONCE_LEN {
        Err(CipherError::FormatError)
    } else if data.len() < NONCE_LEN + TAG_LEN {
        Err(CipherError::AuthenticationFailure)
    } else {
        match aes_gcm_open(
            key,
            data.subrange(0, NONCE_LEN as int),
            data.subrange(NONCE_LEN as int, data.len() as int),
        ) {
            Some(plaintext) => Ok(plaintext),
            None => Err(CipherError::AuthenticationFailure),
        }
    }
}

/// The view of an outcome that carries bytes.
pub open spec fn bytes_result(r: Result<Vec<u8>, CipherError>) -> Result<Seq<u8>, CipherError> {
    match r {
        Ok(bytes) => Ok(bytes@),
        Err(e) => Err(e),
    }
}

/// `Aes256Gcm::encrypt` of the `aes-gcm` crate, with the key and the nonce
/// taken from slices. The contract names the output and claims of it what the
/// crate's source shows: the cipher refuses exactly the plaintexts above its
/// length limit, the output is sixteen bytes longer than the plaintext, and
/// opening it under the same key and nonce gives the plaintext back.
#[verifier::external_body]
#[allow(deprecated)]
fn seal(key: &[u8], nonce: &[u8], plaintext: &[u8]) -> (r: Option<Vec<u8>>)
    requires
        key@.len() == KEY_LEN,
        nonce@.len() == NONCE_LEN,
    ensures
        r is Some <==> plaintext@.len() <= MAX_PLAINTEXT_LEN,
        match r {
            Some(sealed) => {
                &&& aes_gcm_seal(key@, nonce@, plaintext@) == Some(sealed@)
                &&& sealed@.len() == plaintext@.len() + TAG_LEN
                &&& aes_gcm_open(key@, nonce@, sealed@) == Some(plaintext@)
            },
            None => aes_gcm_seal(key@, nonce@, plaintext@) is None,
        },
{
    let cipher = Aes256Gcm::new(GenericArray::from_slice(key));
    cipher.encrypt(GenericArray::from_slice(nonce), plaintext).ok()
}

/// `Aes256Gcm::decrypt` of the `aes-gcm` crate, with the key and the nonce
/// taken from slices. The contract names the output and claims of it what the
/// crate's source shows: an input shorter than a tag is rejected, and a
/// recovered plaintext is sixteen bytes shorter than the input.
#[verifier::external_body]
#[allow(deprecated)]
pub(crate) fn open(key: &[u8], nonce: &[u8], sealed: &[u8]) -> (r: Option<Vec<u8>>)
    requires
        key@.len() == KEY_LEN,
        nonce@.len() == NONCE_LEN,
    ensures
        sealed@.len() < TAG_LEN ==> r is None,
        match r {
            Some(plaintext) => {
                &&& aes_gcm_open(key@, nonce@, sealed@) == Some(plaintext@)
                &&& plaintext@.len() + TAG_LEN == sealed@.len()
            },
            None => aes_gcm_open(key@, nonce@, sealed@) is None,
        },
{
    let cipher = Aes256Gcm::new(GenericArray::from_slice(key));
    cipher.decrypt(GenericArray::from_slice(nonce), sealed).ok()
}

/// `Aes256Gcm::generate_nonce` of the `aes-gcm` crate on the operating
/// system's random generator. The bytes are random: the contract gives their
/// number only.
#[verifier::external_body]
fn fresh_nonce() -> (r: Vec<u8>)
    ensures
        r@.len() == NONCE_LEN,
{
    Aes256Gcm::generate_nonce(&mut OsRng).to_vec()
}

/// Opens a framed message: splits the nonce from the first twelve bytes and
/// decrypts the rest under `key`.
pub fn aes_decode(key: &[u8], cipher_text: &[u8]) -> (r: Result<Vec<u8>, CipherError>)
    requires
        key@.len() == KEY_LEN,
    ensures
        bytes_result(r) == decode_spec(key@, cipher_text@),
{
    if cipher_text.len() < NONCE_LEN {
        return Err(CipherError::FormatError);
    }
    let nonce = slice_subrange(cipher_text, 0, NONCE_LEN);
    let sealed = slice_subrange(cipher_text, NONCE_LEN, cipher_text.len());
    match open(key, nonce, sealed) {
        Some(plaintext) => Ok(plaintext),
        None => Err(CipherError::AuthenticationFailure),
    }
}

/// Seals `plaintext` under `key` with the given nonce and frames the result.
pub fn aes_encode_with_nonce(key: &[u8], nonce: &[u8], plaintext: &[u8]) -> (r: Result<
    Vec<u8>,
    CipherError,
>)
    requires
        key@.len() == KEY_LEN,
        nonce@.len() == NONCE_LEN,
    ensures
        bytes_result(r) == encode_spec(key@, nonce@, plaintext@),
        r is Ok <==> plaintext@.len() <= MAX_PLAINTEXT_LEN,
        r matches Ok(blob) ==> is_sealed(key@, plaintext@, blob@),
{
    match seal(key, nonce, plaintext) {
        Some(sealed) => {
            let mut output: Vec<u8> = Vec::new();
            output.extend_from_slice(nonce);
            output.extend_from_slice(sealed.as_slice());
            proof {
                assert(output@ =~= nonce@ + sealed@);
                assert(output@.subrange(0, NONCE_LEN as int) =~= nonce@);
                assert(output@.subrange(NONCE_LEN as int, output@.len() as int) =~= sealed@);
            }
            Ok(output)
        },
        None => Err(CipherError::PlaintextTooLong),
    }
}

/// Seals `plaintext` under `key` with a fresh random nonce and frames the
/// result. Whatever nonce was drawn, the output opens to `plaintext` under
/// the same key. A nonce must not repeat under one key: with 96 random bits
/// for each message, a repeat is taken to be negligible at the volumes that
/// the service sees.
pub fn aes_encode(key: &[u8], plaintext: &[u8]) -> (r: Result<Vec<u8>, CipherError>)
    requires
        key@.len() == KEY_LEN,
    ensures
        r is Ok <==> plaintext@.len() <= MAX_PLAINTEXT_LEN,
        r matches Err(e) ==> e == CipherError::PlaintextTooLong,
        r matches Ok(blob) ==> {
            &&& is_sealed(key@, plaintext@, blob@)
            &&& decode_spec(key@, blob@) == Ok::<Seq<u8>, CipherError>(plaintext@)
            &&& encode_spec(key@, blob@.subrange(0, NONCE_LEN as int), plaintext@) == Ok::<
                Seq<u8>,
                CipherError,
            >(blob@)
        },
{
    let nonce = fresh_nonce();
    let r = aes_encode_with_nonce(key, nonce.as_slice(), plaintext);
    proof {
        assert(r matches Ok(blob) ==> blob@.subrange(0, NONCE_LEN as int) =~= nonce@);
    }
    r
}

/// A framed message that opens to a plaintext under a key decodes to that
/// plaintext under the same key: decoding inverts encoding.
pub proof fn lemma_decode_inverts_encode(key: Seq<u8>, plaintext: Seq<u8>, blob: Seq<u8>)
    requires
        is_sealed(key, plaintext, blob),
    ensures
        decode_spec(key, blob) == Ok::<Seq<u8>, CipherError>(plaintext),
{
}

/// Under whatever key, a message that is long enough to hold a nonce either
/// opens or fails authentication; it fails on its format exactly where it
/// is shorter than a nonce. The length of a sealed message does not change
/// when its bits are altered, so an altered or wrongly keyed message that
/// does not open fails authentication.
pub proof fn lemma_failure_is_authentication_failure(key: Seq<u8>, data: Seq<u8>)
    ensures
        decode_spec(key, data) == Err::<Seq<u8>, CipherError>(CipherError::FormatError)
            <==> data.len() < NONCE_LEN,
        data.len() >= NONCE_LEN && decode_spec(key, data) is Err ==> decode_spec(key, data)
            == Err::<Seq<u8>, CipherError>(CipherError::AuthenticationFailure),
        decode_spec(key, data) matches Ok(plaintext) ==> aes_gcm_open(
            key,
            data.subrange(0, NONCE_LEN as int),
            data.subrange(NONCE_LEN as int, data.len() as int),
        ) == Some(plaintext),
{
}

} // verus!
