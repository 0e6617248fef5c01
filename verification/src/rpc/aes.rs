//! Opening of a sealed message whose nonce travels apart from it.

use crate::tls::aes::{aes_gcm_open, open, CipherError, KEY_LEN, NONCE_LEN};
use vstd::prelude::*;

verus! {

/// What opening `cipher_text` under `key` and `nonce` yields.
pub open spec fn aes_decode_spec(key: Seq<u8>, nonce: Seq<u8>, cipher_text: Seq<u8>) -> Result<
    Seq<u8>,
    CipherError,
> {
    match aes_gcm_open(key, nonce, cipher_text) {
        Some(plaintext) => Ok(plaintext),
        None => Err(CipherError::AuthenticationFailure),
    }
}

/// Opens `cipher_text`, ciphertext followed by the tag, under `key` and
/// `nonce`.
pub fn aes_decode(key: &[u8], nonce: &[u8], cipher_text: &[u8]) -> (r: Result<
    Vec<u8>,
    CipherError,
>)
    requires
        key@.len() == KEY_LEN,
        nonce@.len() == NONCE_LEN,
    ensures
        crate::tls::aes::bytes_result(r) == aes_decode_spec(key@, nonce@, cipher_text@),
{
    match open(key, nonce, cipher_text) {
        Some(plaintext) => Ok(plaintext),
        None => Err(CipherError::AuthenticationFailure),
    }
}

} // verus!
