//! Key exchange on NIST P-256 and derivation of symmetric keys.
//!
//! A secret key is a 32-byte big-endian scalar; a public key travels in its
//! SEC1 encoding. The shared secret of two parties is the x-coordinate of
//! their Diffie-Hellman point, and a session key is HKDF-SHA-256 of it.

pub mod aes;

use crate::config::{get_secret_key_spec, Config, ConfigError, ConfigView};
use hkdf::Hkdf;
use p256::elliptic_curve::generic_array::GenericArray;
use p256::elliptic_curve::ScalarPrimitive;
use rand_core::OsRng;
use sha2::{Digest, Sha256};
use vstd::prelude::*;

verus! {

/// Length of a P-256 secret scalar in bytes.
pub const SECRET_KEY_LEN: usize = 32;

/// Length of a shared secret in bytes.
pub const SHARED_SECRET_LEN: usize = 32;

/// Length of a derived symmetric key in bytes.
pub const SYMMETRIC_KEY_LEN: usize = 32;

/// Length of a fingerprint in bytes.
pub const FINGERPRINT_LEN: usize = 32;

/// Why a shared secret could not be computed.
#[derive(Debug, Clone, Copy, PartialEq, Eq, Structural)]
pub enum KeyExchangeError {
    /// The local secret is not 32 bytes that encode a scalar of the curve.
    InvalidSecretKey,
    /// The peer's bytes are not the encoding of a point of the curve.
    InvalidPeerKey,
}

impl KeyExchangeError {
    /// The text that describes the error.
    pub open spec fn message_spec(self) -> Seq<char> {
        match self {
            KeyExchangeError::InvalidSecretKey => "invalid secret key"@,
            KeyExchangeError::InvalidPeerKey => "invalid peer key"@,
        }
    }

    /// The text that describes the error.
    pub fn message(&self) -> (r: String)
        ensures
            r@ == self.message_spec(),
    {
        match self {
            KeyExchangeError::InvalidSecretKey => "invalid secret key".to_owned(),
            KeyExchangeError::InvalidPeerKey => "invalid peer key".to_owned(),
        }
    }
}

/// Why the store's secret key and a peer key gave no shared secret.
#[derive(Debug, Clone, Copy, PartialEq, Eq, Structural)]
pub enum SharedSecretError {
    /// The secret key could not be read from the store.
    Config(ConfigError),
    /// The key agreement refused one of the keys.
    KeyExchange(KeyExchangeError),
}

impl SharedSecretError {
    /// The text that describes the error.
    pub open spec fn message_spec(self) -> Seq<char> {
        match self {
            SharedSecretError::Config(e) => e.message_spec(),
            SharedSecretError::KeyExchange(e) => e.message_spec(),
        }
    }

    /// The text that describes the error.
    pub fn message(&self) -> (r: String)
        ensures
            r@ == self.message_spec(),
    {
        match self {
            SharedSecretError::Config(e) => e.message(),
            SharedSecretError::KeyExchange(e) => e.message(),
        }
    }
}

/// Whether 32 bytes are accepted as a P-256 secret key.
pub uninterp spec fn p256_secret_ok(secret: Seq<u8>) -> bool;

/// Whether bytes are accepted as the SEC1 encoding of a P-256 public key.
pub uninterp spec fn p256_point_ok(encoded: Seq<u8>) -> bool;

/// The SEC1 encoding of the public key that belongs to an accepted secret.
pub uninterp spec fn p256_public(secret: Seq<u8>) -> Seq<u8>;

/// The x-coordinate of the Diffie-Hellman point of an accepted secret and an
/// accepted public key.
pub uninterp spec fn p256_ecdh(secret: Seq<u8>, peer: Seq<u8>) -> Seq<u8>;

/// The first 32 bytes of HKDF-SHA-256 output for input key material `ikm`,
/// with no salt and an empty info string.
pub uninterp spec fn hkdf_sha256(ikm: Seq<u8>) -> Seq<u8>;

/// The SHA-256 digest of `data`.
pub uninterp spec fn sha256(data: Seq<u8>) -> Seq<u8>;

/// `secret` can serve as a secret key.
pub open spec fn valid_secret(secret: Seq<u8>) -> bool {
    secret.len() == SECRET_KEY_LEN && p256_secret_ok(secret)
}

/// What the key agreement of `secret` with the peer key `peer` yields.
pub open spec fn shared_secret_spec(secret: Seq<u8>, peer: Seq<u8>) -> Result<
    Seq<u8>,
    KeyExchangeError,
> {
    if !valid_secret(secret) {
        Err(KeyExchangeError::InvalidSecretKey)
    } else if !p256_point_ok(peer) {
        Err(KeyExchangeError::InvalidPeerKey)
    } else {
        Ok(p256_ecdh(secret, peer))
    }
}

/// The session key that `secret` derives with the peer key `peer`.
pub open spec fn session_key_spec(secret: Seq<u8>, peer: Seq<u8>) -> Result<
    Seq<u8>,
    KeyExchangeError,
> {
    match shared_secret_spec(secret, peer) {
        Ok(shared) => Ok(hkdf_sha256(shared)),
        Err(e) => Err(e),
    }
}

/// Every owner of the peer key `peer` computes, with the public key of
/// `secret`, the shared secret `shared`.
pub open spec fn agrees_with_peer(secret: Seq<u8>, peer: Seq<u8>, shared: Seq<u8>) -> bool {
    forall|other: Seq<u8>|
        valid_secret(other) && #[trigger] p256_public(other) == peer ==> {
            &&& p256_point_ok(p256_public(secret))
            &&& p256_ecdh(other, p256_public(secret)) == shared
        }
}

/// The view of an outcome of a key agreement.
pub open spec fn shared_result(r: Result<Vec<u8>, KeyExchangeError>) -> Result<
    Seq<u8>,
    KeyExchangeError,
> {
    match r {
        Ok(bytes) => Ok(bytes@),
        Err(e) => Err(e),
    }
}

/// `SecretKey::from_bytes` of the `p256` crate: whether it accepts the 32
/// bytes. The contract names the answer.
#[verifier::external_body]
#[allow(deprecated)]
fn secret_is_valid(secret: &[u8]) -> (r: bool)
    requires
        secret@.len() == SECRET_KEY_LEN,
    ensures
        r == p256_secret_ok(secret@),
{
    p256::SecretKey::from_bytes(GenericArray::from_slice(secret)).is_ok()
}

/// `PublicKey::from_sec1_bytes` of the `p256` crate: whether it accepts the
/// bytes. The contract names the answer.
#[verifier::external_body]
fn point_is_valid(encoded: &[u8]) -> (r: bool)
    ensures
        r == p256_point_ok(encoded@),
{
    p256::PublicKey::from_sec1_bytes(encoded).is_ok()
}

/// `SecretKey::public_key` of the `p256` crate, followed by
/// `PublicKey::to_sec1_bytes`. The contract names the encoding and claims
/// that it is itself accepted as a public key.
#[verifier::external_body]
#[allow(deprecated)]
fn public_key_of(secret: &[u8]) -> (r: Vec<u8>)
    requires
        valid_secret(secret@),
    ensures
        r@ == p256_public(secret@),
        p256_point_ok(r@),
{
    let key = p256::SecretKey::from_bytes(GenericArray::from_slice(secret)).unwrap();
    key.public_key().to_sec1_bytes().to_vec()
}

/// `ecdh::diffie_hellman` of the `p256` crate, followed by
/// `SharedSecret::raw_secret_bytes`. The contract names the 32 bytes and
/// claims the symmetry of the exchange: whoever holds the secret behind
/// `peer` computes the same bytes from the public key of `secret`.
#[verifier::external_body]
#[allow(deprecated)]
fn diffie_hellman(secret: &[u8], peer: &[u8]) -> (r: Vec<u8>)
    requires
        valid_secret(secret@),
        p256_point_ok(peer@),
    ensures
        r@ == p256_ecdh(secret@, peer@),
        r@.len() == SHARED_SECRET_LEN,
        agrees_with_peer(secret@, peer@, r@),
{
    let key = p256::SecretKey::from_bytes(GenericArray::from_slice(secret)).unwrap();
    let point = p256::PublicKey::from_sec1_bytes(peer).unwrap();
    let shared = p256::ecdh::diffie_hellman(key.to_nonzero_scalar(), point.as_affine());
    shared.raw_secret_bytes().to_vec()
}

/// `ScalarPrimitive::random` of the `p256` crate on the operating system's
/// random generator, serialised through `SecretKey::to_bytes`. The scalar is
/// random: the contract gives the number of bytes only.
#[verifier::external_body]
fn random_scalar() -> (r: Vec<u8>)
    ensures
        r@.len() == SECRET_KEY_LEN,
{
    p256::SecretKey::new(ScalarPrimitive::random(&mut OsRng)).to_bytes().to_vec()
}

/// `Hkdf::<Sha256>::new` with no salt, followed by `Hkdf::expand` with an
/// empty info string into 32 bytes, of the `hkdf` crate. The contract names
/// the output.
#[verifier::external_body]
fn hkdf_expand(ikm: &[u8]) -> (r: Vec<u8>)
    ensures
        r@ == hkdf_sha256(ikm@),
        r@.len() == SYMMETRIC_KEY_LEN,
{
    let mut okm = [0u8; 32];
    Hkdf::<Sha256>::new(None, ikm).expand(&[], &mut okm).unwrap();
    okm.to_vec()
}

/// `Sha256::digest` of the `sha2` crate. The contract names the 32 bytes.
#[verifier::external_body]
pub(crate) fn sha256_digest(data: &[u8]) -> (r: Vec<u8>)
    ensures
        r@ == sha256(data@),
        r@.len() == FINGERPRINT_LEN,
{
    Sha256::digest(data).to_vec()
}

/// Tells whether `secret` can serve as a secret key.
pub fn is_valid_secret(secret: &[u8]) -> (r: bool)
    ensures
        r == valid_secret(secret@),
{
    secret.len() == SECRET_KEY_LEN && secret_is_valid(secret)
}

/// Computes the shared secret of the local secret key with a peer's public
/// key in SEC1 encoding.
pub fn compute_shared_secret(secret: &[u8], peer: &[u8]) -> (r: Result<Vec<u8>, KeyExchangeError>)
    ensures
        shared_result(r) == shared_secret_spec(secret@, peer@),
        r matches Ok(shared) ==> shared@.len() == SHARED_SECRET_LEN && agrees_with_peer(
            secret@,
            peer@,
            shared@,
        ),
{
    if !is_valid_secret(secret) {
        return Err(KeyExchangeError::InvalidSecretKey);
    }
    if !point_is_valid(peer) {
        return Err(KeyExchangeError::InvalidPeerKey);
    }
    Ok(diffie_hellman(secret, peer))
}

/// What the key agreement of a store's secret key with the peer key `peer`
/// yields.
pub open spec fn generate_p256_shared_secret_spec(c: ConfigView, peer: Seq<u8>) -> Result<
    Seq<u8>,
    SharedSecretError,
> {
    match get_secret_key_spec(c) {
        Err(e) => Err(SharedSecretError::Config(e)),
        Ok(secret) => match shared_secret_spec(secret, peer) {
            Ok(shared) => Ok(shared),
            Err(e) => Err(SharedSecretError::KeyExchange(e)),
        },
    }
}

/// Computes the shared secret of the store's secret key with a peer's
/// public key in SEC1 encoding.
pub fn generate_p256_shared_secret(config: &Config, server_public_key: &[u8]) -> (r: Result<
    Vec<u8>,
    SharedSecretError,
>)
    ensures
        match r {
            Ok(shared) => generate_p256_shared_secret_spec(config@, server_public_key@) == Ok::<
                Seq<u8>,
                SharedSecretError,
            >(shared@),
            Err(e) => generate_p256_shared_secret_spec(config@, server_public_key@) == Err::<
                Seq<u8>,
                SharedSecretError,
            >(e),
        },
        r matches Ok(shared) ==> shared@.len() == SHARED_SECRET_LEN && agrees_with_peer(
            get_secret_key_spec(config@)->Ok_0,
            server_public_key@,
            shared@,
        ),
{
    let client_secret = match config.get_secret_key() {
        Ok(secret) => secret,
        Err(e) => {
            return Err(SharedSecretError::Config(e));
        },
    };
    match compute_shared_secret(client_secret.as_slice(), server_public_key) {
        Ok(shared) => Ok(shared),
        Err(e) => Err(SharedSecretError::KeyExchange(e)),
    }
}

/// Derives the 32-byte symmetric key from a shared secret.
pub fn shared_secret_to_symmetric_secret(shares: &[u8]) -> (r: Vec<u8>)
    ensures
        r@ == hkdf_sha256(shares@),
        r@.len() == SYMMETRIC_KEY_LEN,
{
    hkdf_expand(shares)
}

/// Accepts drawn bytes as a secret key where they can serve as one, and
/// refuses them where they cannot.
pub fn accept_secret(bytes: Vec<u8>) -> (r: Result<Vec<u8>, KeyExchangeError>)
    ensures
        shared_result(r) == if valid_secret(bytes@) {
            Ok::<Seq<u8>, KeyExchangeError>(bytes@)
        } else {
            Err::<Seq<u8>, KeyExchangeError>(KeyExchangeError::InvalidSecretKey)
        },
{
    if is_valid_secret(bytes.as_slice()) {
        Ok(bytes)
    } else {
        Err(KeyExchangeError::InvalidSecretKey)
    }
}

/// Draws a fresh random secret key. A draw that cannot serve as a secret
/// key, which is the zero scalar, is refused.
pub fn generate_p256_secret() -> (r: Result<Vec<u8>, KeyExchangeError>)
    ensures
        r matches Ok(secret) ==> secret@.len() == SECRET_KEY_LEN && valid_secret(secret@),
        r matches Err(e) ==> e == KeyExchangeError::InvalidSecretKey,
{
    accept_secret(random_scalar())
}

/// The public key of a valid secret key, in SEC1 encoding.
pub fn get_p256_pubkey(sk: &[u8]) -> (r: Vec<u8>)
    requires
        valid_secret(sk@),
    ensures
        r@ == p256_public(sk@),
        p256_point_ok(r@),
{
    public_key_of(sk)
}

/// The public key of `sk` in SEC1 encoding, or `None` where `sk` cannot
/// serve as a secret key.
pub fn try_get_p256_pubkey(sk: &[u8]) -> (r: Option<Vec<u8>>)
    ensures
        match r {
            Some(public) => valid_secret(sk@) && public@ == p256_public(sk@) && p256_point_ok(
                public@,
            ),
            None => !valid_secret(sk@),
        },
{
    if is_valid_secret(sk) {
        Some(get_p256_pubkey(sk))
    } else {
        None
    }
}

/// The fingerprint of a public key: the SHA-256 digest of its encoding.
pub fn pubkey_to_fingerprint(pk: &[u8]) -> (r: Vec<u8>)
    ensures
        r@ == sha256(pk@),
        r@.len() == FINGERPRINT_LEN,
{
    sha256_digest(pk)
}

/// Two parties that each combine their own secret key with the other's
/// public key derive the same session key. `shared` is the shared secret
/// that the first of them computed.
pub proof fn lemma_session_keys_agree(
    a_priv: Seq<u8>,
    a_pub: Seq<u8>,
    b_priv: Seq<u8>,
    b_pub: Seq<u8>,
    shared: Seq<u8>,
)
    requires
        valid_secret(a_priv),
        valid_secret(b_priv),
        a_pub == p256_public(a_priv),
        b_pub == p256_public(b_priv),
        shared_secret_spec(a_priv, b_pub) == Ok::<Seq<u8>, KeyExchangeError>(shared),
        agrees_with_peer(a_priv, b_pub, shared),
    ensures
        session_key_spec(a_priv, b_pub) == session_key_spec(b_priv, a_pub),
        session_key_spec(a_priv, b_pub) == Ok::<Seq<u8>, KeyExchangeError>(hkdf_sha256(shared)),
{
}

} // verus!
