//! The address under which a client reaches the gateway.

use crate::config::{get_secret_key_spec, Config, ConfigView};
use crate::hexstr::{hex_encode, hex_encode_spec};
use crate::text::{decimal_spec, decimal_text};
use crate::tls::{
    p256_public, pubkey_to_fingerprint, sha256, try_get_p256_pubkey, valid_secret,
    KeyExchangeError, SharedSecretError,
};
use vstd::prelude::*;
use vstd::string::StringExecFns;

verus! {

/// The fingerprint of a store's public key in hexadecimal.
pub open spec fn fingerprint_spec(c: ConfigView) -> Result<Seq<char>, SharedSecretError> {
    match get_secret_key_spec(c) {
        Err(e) => Err(SharedSecretError::Config(e)),
        Ok(secret) => if valid_secret(secret) {
            Ok(hex_encode_spec(sha256(p256_public(secret))))
        } else {
            Err(SharedSecretError::KeyExchange(KeyExchangeError::InvalidSecretKey))
        },
    }
}

/// The address of a gateway with the given fingerprint on the given port.
pub open spec fn server_url_spec(fingerprint: Seq<char>, port: u16) -> Seq<char> {
    "http://"@ + fingerprint + "@"@ + "127.0.0.1"@ + ":"@ + decimal_spec(port as nat)
}

/// The view of an outcome that carries a text.
pub open spec fn text_result(r: Result<String, SharedSecretError>) -> Result<
    Seq<char>,
    SharedSecretError,
> {
    match r {
        Ok(text) => Ok(text@),
        Err(e) => Err(e),
    }
}

/// The fingerprint of the server: the SHA-256 digest of the public key
/// that belongs to the store's secret key, in hexadecimal.
pub fn get_server_fingerprint(config: &Config) -> (r: Result<String, SharedSecretError>)
    ensures
        text_result(r) == fingerprint_spec(config@),
{
    let secret = match config.get_secret_key() {
        Ok(secret) => secret,
        Err(e) => {
            return Err(SharedSecretError::Config(e));
        },
    };
    match try_get_p256_pubkey(secret.as_slice()) {
        Some(public) => {
            let fingerprint = pubkey_to_fingerprint(public.as_slice());
            Ok(hex_encode(fingerprint.as_slice()))
        },
        None => Err(SharedSecretError::KeyExchange(KeyExchangeError::InvalidSecretKey)),
    }
}

/// The address that a client connects to: the fingerprint as the user part,
/// the loopback address and the port.
pub fn get_server_url(config: &Config, port: u16) -> (r: Result<String, SharedSecretError>)
    ensures
        text_result(r) == match fingerprint_spec(config@) {
            Ok(fingerprint) => Ok::<Seq<char>, SharedSecretError>(
                server_url_spec(fingerprint, port),
            ),
            Err(e) => Err::<Seq<char>, SharedSecretError>(e),
        },
{
    let fingerprint = match get_server_fingerprint(config) {
        Ok(fingerprint) => fingerprint,
        Err(e) => {
            return Err(e);
        },
    };
    let mut url = "http://".to_owned();
    url.append(fingerprint.as_str());
    url.append("@");
    url.append("127.0.0.1");
    url.append(":");
    url.append(decimal_text(port as usize).as_str());
    Ok(url)
}

} // verus!
