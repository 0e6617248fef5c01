//! The password-gated credential store.
//!
//! The store keeps three records: a marker that verifies a candidate
//! password, the long-term secret key, and an outbound proxy address. With an
//! empty password the marker and the secret key are kept as they are, which
//! protects nothing at rest; with any other password both are sealed under
//! the SHA-256 digest of the password.

use crate::text::bytes_equal;
use crate::tls::aes::{aes_decode, aes_encode, decode_spec, is_sealed, CipherError};
use crate::tls::{
    generate_p256_secret, is_valid_secret, sha256, sha256_digest, valid_secret, KeyExchangeError, SECRET_KEY_LEN,
};
use secure_string::SecureString;
use vstd::prelude::*;
use vstd::slice::slice_to_vec;
use vstd::string::StringSliceAdditionalSpecFns;
use vstd::utf8::{decode_utf8, valid_utf8};

verus! {

/// Name of the record that holds the password marker.
pub const PASSWORD_TEST_KEY: &'static str = "password_test";

/// Name of the record that holds the secret key.
pub const SECRET_KEY_KEY: &'static str = "secret_key";

/// Name of the record that holds the proxy address.
pub const PROXY_KEY: &'static str = "proxy";

/// Why an operation of the store failed.
#[derive(Debug, Clone, Copy, PartialEq, Eq, Structural)]
pub enum ConfigError {
    /// The persistent store is not available.
    StorageError,
    /// Nothing is stored under the record that was read.
    NotSet,
    /// The marker does not verify under the candidate password.
    WrongPassword,
    /// No password is cached: the store is locked.
    NotUnlocked,
    /// A sealed record could not be opened or written.
    Cipher(CipherError),
    /// No secret key could be made.
    KeyExchange(KeyExchangeError),
}

impl ConfigError {
    /// The text that describes the error.
    pub open spec fn message_spec(self) -> Seq<char> {
        match self {
            ConfigError::StorageError => "cant get db"@,
            ConfigError::NotSet => "not set"@,
            ConfigError::WrongPassword => "password is wrong"@,
            ConfigError::NotUnlocked => "database not decrypted"@,
            ConfigError::Cipher(e) => e.message_spec(),
            ConfigError::KeyExchange(e) => e.message_spec(),
        }
    }

    /// The text that describes the error.
    pub fn message(&self) -> (r: String)
        ensures
            r@ == self.message_spec(),
    {
        match self {
            ConfigError::StorageError => "cant get db".to_owned(),
            ConfigError::NotSet => "not set".to_owned(),
            ConfigError::WrongPassword => "password is wrong".to_owned(),
            ConfigError::NotUnlocked => "database not decrypted".to_owned(),
            ConfigError::Cipher(e) => e.message(),
            ConfigError::KeyExchange(e) => e.message(),
        }
    }
}

/// `SecureString` of the `secure-string` crate: a text that is wiped from
/// memory when it is dropped.
#[verifier::external_type_specification]
#[verifier::external_body]
pub struct ExSecureString(SecureString);

/// The text that a `SecureString` holds.
pub uninterp spec fn secure_text(s: SecureString) -> Seq<char>;

/// `SecureString::from` of the `secure-string` crate: the result holds the
/// given text.
#[verifier::external_body]
fn secure(text: &str) -> (r: SecureString)
    ensures
        secure_text(r) == text@,
{
    SecureString::from(text)
}

/// `SecureString::unsecure` of the `secure-string` crate: borrows the text
/// that the value holds.
#[verifier::external_body]
fn unsecure(s: &SecureString) -> (r: &str)
    ensures
        r@ == secure_text(*s),
{
    s.unsecure()
}

/// `String::from_utf8` of std: the decoded text where the bytes are valid
/// UTF-8, nothing where they are not.
#[verifier::external_body]
fn string_from_utf8(bytes: Vec<u8>) -> (r: Option<String>)
    ensures
        match r {
            Some(text) => valid_utf8(bytes@) && text@ == decode_utf8(bytes@),
            None => !valid_utf8(bytes@),
        },
{
    String::from_utf8(bytes).ok()
}

/// The persisted records, each absent until it is first written.
pub struct Record {
    pub password_test: Option<Vec<u8>>,
    pub secret_key: Option<Vec<u8>>,
    pub proxy: Option<Vec<u8>>,
}

/// The records as sequences of bytes.
pub struct RecordView {
    pub password_test: Option<Seq<u8>>,
    pub secret_key: Option<Seq<u8>>,
    pub proxy: Option<Seq<u8>>,
}

/// The view of a record that may be absent.
pub open spec fn bytes_view(record: Option<Vec<u8>>) -> Option<Seq<u8>> {
    match record {
        Some(bytes) => Some(bytes@),
        None => None,
    }
}

impl View for Record {
    type V = RecordView;

    open spec fn view(&self) -> RecordView {
        RecordView {
            password_test: bytes_view(self.password_test),
            secret_key: bytes_view(self.secret_key),
            proxy: bytes_view(self.proxy),
        }
    }
}

/// The store: its records, absent where the persistent store could not be
/// opened, and the password that unlocked it, absent while it is locked.
pub struct Config {
    pub db: Option<Record>,
    pub password: Option<SecureString>,
}

/// The store as records and the text of the cached password.
pub struct ConfigView {
    pub db: Option<RecordView>,
    pub password: Option<Seq<char>>,
}

impl View for Config {
    type V = ConfigView;

    open spec fn view(&self) -> ConfigView {
        ConfigView {
            db: match self.db {
                Some(record) => Some(record@),
                None => None,
            },
            password: match self.password {
                Some(s) => Some(secure_text(s)),
                None => None,
            },
        }
    }
}

/// The known plaintext of the marker: the bytes of `hello world!`.
pub open spec fn password_test() -> Seq<u8> {
    seq![104u8, 101u8, 108u8, 108u8, 111u8, 32u8, 119u8, 111u8, 114u8, 108u8, 100u8, 33u8]
}

/// The key that a password seals records under: the SHA-256 digest of its
/// UTF-8 encoding.
pub open spec fn password_key(password: Seq<char>) -> Seq<u8> {
    sha256(vstd::utf8::encode_utf8(password))
}

/// `blob` is what the store keeps for `plain` under `password`: `plain`
/// itself for the empty password, a framed sealed message otherwise.
pub open spec fn stored_under(password: Seq<char>, plain: Seq<u8>, blob: Seq<u8>) -> bool {
    if password.len() == 0 {
        blob == plain
    } else {
        is_sealed(password_key(password), plain, blob)
    }
}

/// Whether the stored marker verifies under a candidate password.
pub open spec fn marker_accepts(marker: Seq<u8>, password: Seq<char>) -> bool {
    if password.len() == 0 {
        marker == password_test()
    } else {
        decode_spec(password_key(password), marker) == Ok::<Seq<u8>, CipherError>(password_test())
    }
}

/// The outcome of verifying a candidate password against a store.
pub open spec fn decrypt_config_spec(c: ConfigView, password: Seq<char>) -> Result<
    (),
    ConfigError,
> {
    match c.db {
        None => Err(ConfigError::StorageError),
        Some(record) => match record.password_test {
            None => Err(ConfigError::NotSet),
            Some(marker) => if marker_accepts(marker, password) {
                Ok(())
            } else {
                Err(ConfigError::WrongPassword)
            },
        },
    }
}

/// The outcome of reading the secret key from a store: a store that is not
/// available is reported first, then a locked one, then a missing key.
pub open spec fn get_secret_key_spec(c: ConfigView) -> Result<Seq<u8>, ConfigError> {
    match c.db {
        None => Err(ConfigError::StorageError),
        Some(record) => match c.password {
            None => Err(ConfigError::NotUnlocked),
            Some(password) => match record.secret_key {
                None => Err(ConfigError::NotSet),
                Some(value) => if password.len() == 0 {
                    Ok(value)
                } else {
                    match decode_spec(password_key(password), value) {
                        Ok(secret) => Ok(secret),
                        Err(e) => Err(ConfigError::Cipher(e)),
                    }
                },
            },
        },
    }
}

/// The relation between a store before and after a new password was set on
/// it: the store is unlocked with the password, the marker and a valid
/// secret key are stored under it, the proxy is untouched.
pub open spec fn set_password_post(pre: ConfigView, post: ConfigView, password: Seq<char>) -> bool {
    &&& pre.db matches Some(before)
    &&& post.db matches Some(after)
    &&& post.password == Some(password)
    &&& after.proxy == before.proxy
    &&& after.password_test matches Some(marker)
    &&& stored_under(password, password_test(), marker)
    &&& after.secret_key matches Some(blob)
    &&& exists|secret: Seq<u8>| valid_secret(secret) && #[trigger] stored_under(
        password,
        secret,
        blob,
    )
}

/// The outcome of setting a password with a given secret key.
pub open spec fn set_password_spec(c: ConfigView, secret_key: Seq<u8>) -> Result<(), ConfigError> {
    if c.db is None {
        Err(ConfigError::StorageError)
    } else if !valid_secret(secret_key) {
        Err(ConfigError::KeyExchange(KeyExchangeError::InvalidSecretKey))
    } else {
        Ok(())
    }
}

/// The outcome of storing a secret key in a store.
pub open spec fn put_secret_key_spec(c: ConfigView, secret_key: Seq<u8>) -> Result<
    (),
    ConfigError,
> {
    if c.db is None {
        Err(ConfigError::StorageError)
    } else {
        match c.password {
            None => Err(ConfigError::NotUnlocked),
            Some(password) => if password.len() == 0 || secret_key.len()
                <= crate::tls::aes::MAX_PLAINTEXT_LEN {
                Ok(())
            } else {
                Err(ConfigError::Cipher(CipherError::PlaintextTooLong))
            },
        }
    }
}

/// The text that stored proxy bytes read as.
pub open spec fn proxy_text(bytes: Seq<u8>) -> Seq<char> {
    if valid_utf8(bytes) {
        decode_utf8(bytes)
    } else {
        Seq::<char>::empty()
    }
}

/// The view of an outcome that carries bytes.
pub open spec fn secret_result(r: Result<Vec<u8>, ConfigError>) -> Result<Seq<u8>, ConfigError> {
    match r {
        Ok(bytes) => Ok(bytes@),
        Err(e) => Err(e),
    }
}

/// The SHA-256 digest of the UTF-8 encoding of a string.
pub fn hash(str: &str) -> (r: Vec<u8>)
    ensures
        r@ == password_key(str@),
        r@.len() == 32,
{
    sha256_digest(str.as_bytes())
}

/// The known plaintext of the marker.
fn password_test_bytes() -> (r: Vec<u8>)
    ensures
        r@ == password_test(),
{
    vec![104u8, 101u8, 108u8, 108u8, 111u8, 32u8, 119u8, 111u8, 114u8, 108u8, 100u8, 33u8]
}

impl Config {
    /// A locked store over the given records; `None` stands for a persistent
    /// store that could not be opened.
    pub fn new(db: Option<Record>) -> (r: Config)
        ensures
            r.db == db,
            r.password is None,
    {
        Config { db, password: None }
    }

    /// Whether the store is unlocked.
    pub open spec fn unlocked(&self) -> bool {
        self.password is Some
    }

    /// Verifies a candidate password against the marker and, where it
    /// verifies, unlocks the store with it.
    pub fn decrypt_config(&mut self, password: &str) -> (r: Result<(), ConfigError>)
        ensures
            r == decrypt_config_spec(old(self)@, password@),
            final(self).db == old(self).db,
            r is Ok ==> final(self)@.password == Some(password@),
            r is Err ==> final(self).password == old(self).password,
    {
        let accepted = match &self.db {
            None => {
                return Err(ConfigError::StorageError);
            },
            Some(record) => match &record.password_test {
                None => {
                    return Err(ConfigError::NotSet);
                },
                Some(pass_test) => {
                    let expected = password_test_bytes();
                    if password.is_empty() {
                        bytes_equal(pass_test.as_slice(), expected.as_slice())
                    } else {
                        let encrypt_key = hash(password);
                        match aes_decode(encrypt_key.as_slice(), pass_test.as_slice()) {
                            Ok(decrypted) => bytes_equal(
                                decrypted.as_slice(),
                                expected.as_slice(),
                            ),
                            Err(_) => false,
                        }
                    }
                },
            },
        };
        if !accepted {
            return Err(ConfigError::WrongPassword);
        }
        self.password = Some(secure(password));
        Ok(())
    }

    /// Verifies the empty password unless the store is already unlocked,
    /// and tells whether the store is unlocked afterwards.
    pub fn try_password(&mut self) -> (r: bool)
        ensures
            r == (old(self).password is Some || decrypt_config_spec(
                old(self)@,
                Seq::<char>::empty(),
            ) is Ok),
            r == final(self).unlocked(),
            final(self).db == old(self).db,
            old(self).password is Some ==> final(self).password == old(self).password,
            old(self).password is None && r ==> final(self)@.password == Some(
                Seq::<char>::empty(),
            ),
    {
        if self.password.is_some() {
            return true;
        }
        proof {
            reveal_strlit("");
        }
        self.decrypt_config("").is_ok()
    }

    /// Stores `secret_key` under the cached password: as it is where the
    /// password is empty, sealed under the password's key otherwise.
    pub fn put_secret_key(&mut self, secret_key: &[u8]) -> (r: Result<(), ConfigError>)
        ensures
            final(self).password == old(self).password,
            r == put_secret_key_spec(old(self)@, secret_key@),
            match r {
                Ok(_) => {
                    &&& old(self)@.db matches Some(before)
                    &&& final(self)@.db matches Some(after)
                    &&& old(self)@.password matches Some(password)
                    &&& after.password_test == before.password_test
                    &&& after.proxy == before.proxy
                    &&& after.secret_key matches Some(blob)
                    &&& stored_under(password, secret_key@, blob)
                },
                Err(_) => final(self).db == old(self).db,
            },
    {
        if self.db.is_none() {
            return Err(ConfigError::StorageError);
        }
        let blob = match &self.password {
            None => {
                return Err(ConfigError::NotUnlocked);
            },
            Some(cached) => {
                let password = unsecure(cached);
                if password.is_empty() {
                    slice_to_vec(secret_key)
                } else {
                    let encrypt_key = hash(password);
                    match aes_encode(encrypt_key.as_slice(), secret_key) {
                        Ok(encrypted) => encrypted,
                        Err(e) => {
                            return Err(ConfigError::Cipher(e));
                        },
                    }
                }
            },
        };
        match &mut self.db {
            Some(record) => {
                record.secret_key = Some(blob);
            },
            None => {},
        }
        Ok(())
    }

    /// Draws a fresh secret key and stores it under the cached password. A
    /// store that is not available or locked is reported before anything is
    /// drawn; a draw that cannot serve as a secret key leaves the store as
    /// it was.
    pub fn create_secret_key(&mut self) -> (r: Result<Vec<u8>, ConfigError>)
        ensures
            final(self).password == old(self).password,
            old(self).db is None || old(self).password is None ==> r is Err,
            match r {
                Ok(secret) => {
                    &&& valid_secret(secret@)
                    &&& old(self)@.db matches Some(before)
                    &&& final(self)@.db matches Some(after)
                    &&& old(self)@.password matches Some(password)
                    &&& after.password_test == before.password_test
                    &&& after.proxy == before.proxy
                    &&& after.secret_key matches Some(blob)
                    &&& stored_under(password, secret@, blob)
                },
                Err(e) => {
                    &&& final(self).db == old(self).db
                    &&& e == if old(self).db is None {
                        ConfigError::StorageError
                    } else if old(self).password is None {
                        ConfigError::NotUnlocked
                    } else {
                        ConfigError::KeyExchange(KeyExchangeError::InvalidSecretKey)
                    }
                },
            },
    {
        if self.db.is_none() {
            return Err(ConfigError::StorageError);
        }
        if self.password.is_none() {
            return Err(ConfigError::NotUnlocked);
        }
        let secret_key = match generate_p256_secret() {
            Ok(secret_key) => secret_key,
            Err(e) => {
                return Err(ConfigError::KeyExchange(e));
            },
        };
        match self.put_secret_key(secret_key.as_slice()) {
            Ok(_) => Ok(secret_key),
            Err(e) => Err(e),
        }
    }

    /// Sets a new password with the given secret key: unlocks the store with
    /// the password and writes the secret key and the marker, both stored
    /// under the new password. A store that is not available, or a secret
    /// key that cannot serve as one, leaves the store as it was.
    pub fn set_password_with_secret(&mut self, password: &str, secret_key: &[u8]) -> (r: Result<
        (),
        ConfigError,
    >)
        ensures
            r == set_password_spec(old(self)@, secret_key@),
            r is Err ==> final(self).db == old(self).db && final(self).password
                == old(self).password,
            r is Ok ==> set_password_post(old(self)@, final(self)@, password@) && stored_under(
                password@,
                secret_key@,
                final(self)@.db->0.secret_key->0,
            ),
    {
        if self.db.is_none() {
            return Err(ConfigError::StorageError);
        }
        if !is_valid_secret(secret_key) {
            return Err(ConfigError::KeyExchange(KeyExchangeError::InvalidSecretKey));
        }
        let expected = password_test_bytes();
        let marker = if password.is_empty() {
            expected
        } else {
            let encrypt_key = hash(password);
            match aes_encode(encrypt_key.as_slice(), expected.as_slice()) {
                Ok(encrypted) => encrypted,
                Err(e) => {
                    return Err(ConfigError::Cipher(e));
                },
            }
        };
        self.password = Some(secure(password));
        match self.put_secret_key(secret_key) {
            Ok(_) => {},
            Err(e) => {
                return Err(e);
            },
        }
        match &mut self.db {
            Some(record) => {
                record.password_test = Some(marker);
            },
            None => {},
        }
        Ok(())
    }

    /// Sets a new password: draws a fresh secret key, unlocks the store with
    /// the password and writes the secret key and the marker, both stored
    /// under the new password. A store that is not available, or a draw that
    /// cannot serve as a secret key, leaves the store as it was.
    pub fn set_password(&mut self, password: &str) -> (r: Result<(), ConfigError>)
        ensures
            old(self).db is None ==> r == Err::<(), ConfigError>(ConfigError::StorageError),
            r matches Err(e) ==> {
                &&& final(self).db == old(self).db
                &&& final(self).password == old(self).password
                &&& e == if old(self).db is None {
                    ConfigError::StorageError
                } else {
                    ConfigError::KeyExchange(KeyExchangeError::InvalidSecretKey)
                }
            },
            r is Ok ==> set_password_post(old(self)@, final(self)@, password@),
    {
        if self.db.is_none() {
            return Err(ConfigError::StorageError);
        }
        match generate_p256_secret() {
            Ok(secret_key) => self.set_password_with_secret(password, secret_key.as_slice()),
            Err(e) => Err(ConfigError::KeyExchange(e)),
        }
    }

    /// Stores the outbound proxy address.
    pub fn set_proxy(&mut self, proxy: &str) -> (r: Result<(), ConfigError>)
        ensures
            final(self).password == old(self).password,
            match old(self)@.db {
                None => r == Err::<(), ConfigError>(ConfigError::StorageError) && final(self).db
                    == old(self).db,
                Some(before) => {
                    &&& r is Ok
                    &&& final(self)@.db == Some(
                        RecordView { proxy: Some(proxy.spec_bytes()), ..before },
                    )
                },
            },
    {
        match &mut self.db {
            None => Err(ConfigError::StorageError),
            Some(record) => {
                record.proxy = Some(slice_to_vec(proxy.as_bytes()));
                Ok(())
            },
        }
    }

    /// Reads the outbound proxy address; bytes that are not valid UTF-8 read
    /// as the empty string.
    pub fn get_proxy(&self) -> (r: Result<Option<String>, ConfigError>)
        ensures
            match self@.db {
                None => r == Err::<Option<String>, ConfigError>(ConfigError::StorageError),
                Some(record) => match record.proxy {
                    None => r == Ok::<Option<String>, ConfigError>(None),
                    Some(bytes) => r matches Ok(Some(text)) && text@ == proxy_text(bytes),
                },
            },
    {
        match &self.db {
            None => Err(ConfigError::StorageError),
            Some(record) => match &record.proxy {
                None => Ok(None),
                Some(bytes) => match string_from_utf8(slice_to_vec(bytes.as_slice())) {
                    Some(text) => Ok(Some(text)),
                    None => Ok(Some(String::new())),
                },
            },
        }
    }

    /// Whether a marker is stored.
    pub fn has_password(&self) -> (r: Result<bool, ConfigError>)
        ensures
            r == match self@.db {
                None => Err::<bool, ConfigError>(ConfigError::StorageError),
                Some(record) => Ok::<bool, ConfigError>(record.password_test is Some),
            },
    {
        match &self.db {
            None => Err(ConfigError::StorageError),
            Some(record) => Ok(record.password_test.is_some()),
        }
    }

    /// Reads the secret key: as stored where the password is empty, opened
    /// under the password's key otherwise.
    pub fn get_secret_key(&self) -> (r: Result<Vec<u8>, ConfigError>)
        ensures
            secret_result(r) == get_secret_key_spec(self@),
    {
        match &self.db {
            None => Err(ConfigError::StorageError),
            Some(record) => match &self.password {
                None => Err(ConfigError::NotUnlocked),
                Some(cached) => match &record.secret_key {
                    None => Err(ConfigError::NotSet),
                    Some(value) => {
                        let password = unsecure(cached);
                        if password.is_empty() {
                            Ok(slice_to_vec(value.as_slice()))
                        } else {
                            let encrypt_key = hash(password);
                            match aes_decode(encrypt_key.as_slice(), value.as_slice()) {
                                Ok(decrypted) => Ok(decrypted),
                                Err(e) => Err(ConfigError::Cipher(e)),
                            }
                        }
                    },
                },
            },
        }
    }
}

/// Verifies a password that the user typed and unlocks the store with it.
/// Whatever went wrong reads as a wrong password.
pub fn input_password(config: &mut Config, password: &str) -> (r: Result<(), String>)
    ensures
        r is Ok <==> decrypt_config_spec(old(config)@, password@) is Ok,
        r matches Err(text) ==> text@ == "wrong password"@,
        final(config).db == old(config).db,
        r is Ok ==> final(config)@.password == Some(password@),
        r is Err ==> final(config).password == old(config).password,
{
    match config.decrypt_config(password) {
        Ok(_) => Ok(()),
        Err(_) => Err("wrong password".to_owned()),
    }
}

/// Sets the password that the user chose.
pub fn set_password(config: &mut Config, password: &str) -> (r: Result<(), String>)
    ensures
        old(config).db is None ==> r is Err,
        r matches Err(text) ==> text@ == "failed to set password"@ && final(config).db == old(
            config,
        ).db && final(config).password == old(config).password,
        r is Ok ==> set_password_post(old(config)@, final(config)@, password@),
{
    match config.set_password(password) {
        Ok(_) => Ok(()),
        Err(_) => Err("failed to set password".to_owned()),
    }
}

/// Tells the user interface whether a password was ever set.
pub fn has_password(config: &Config) -> (r: Result<bool, String>)
    ensures
        match config@.db {
            None => r matches Err(text) && text@ == ConfigError::StorageError.message_spec(),
            Some(record) => r == Ok::<bool, String>(record.password_test is Some),
        },
{
    match config.has_password() {
        Ok(present) => Ok(present),
        Err(e) => Err(e.message()),
    }
}

/// Tries the empty password on behalf of the user interface; never fails.
pub fn try_password(config: &mut Config) -> (r: Result<bool, String>)
    ensures
        r matches Ok(unlocked) && unlocked == final(config).unlocked() && unlocked == (old(
            config,
        ).password is Some || decrypt_config_spec(old(config)@, Seq::<char>::empty()) is Ok),
        final(config).db == old(config).db,
        old(config).password is Some ==> final(config).password == old(config).password,
        old(config).password is None && r == Ok::<bool, String>(true) ==> final(config)@.password
            == Some(Seq::<char>::empty()),
        old(config).password is None && r == Ok::<bool, String>(false)
            ==> final(config).password is None,
{
    Ok(config.try_password())
}

/// Stores the proxy address and tells whether it was stored, in which case
/// the caller applies it to the process at once.
pub fn set_proxy(config: &mut Config, proxy: &str) -> (r: bool)
    ensures
        r == (old(config).db is Some),
        final(config).password == old(config).password,
        match old(config)@.db {
            None => final(config).db == old(config).db,
            Some(before) => final(config)@.db == Some(
                RecordView { proxy: Some(proxy.spec_bytes()), ..before },
            ),
        },
{
    config.set_proxy(proxy).is_ok()
}

/// Reads the proxy address for the user interface.
pub fn get_proxy(config: &Config) -> (r: Result<Option<String>, String>)
    ensures
        match config@.db {
            None => r matches Err(text) && text@ == ConfigError::StorageError.message_spec(),
            Some(record) => match record.proxy {
                None => r == Ok::<Option<String>, String>(None),
                Some(bytes) => r matches Ok(Some(text)) && text@ == proxy_text(bytes),
            },
        },
{
    match config.get_proxy() {
        Ok(proxy) => Ok(proxy),
        Err(e) => Err(e.message()),
    }
}

/// The proxy address that the process starts with: the stored one, where the
/// store can be read and holds one.
pub fn init(config: &Config) -> (r: Option<String>)
    ensures
        match config@.db {
            None => r is None,
            Some(record) => match record.proxy {
                None => r is None,
                Some(bytes) => r matches Some(text) && text@ == proxy_text(bytes),
            },
        },
{
    match config.get_proxy() {
        Ok(proxy) => proxy,
        Err(_) => None,
    }
}

/// A password that was just set verifies, also on a store that was locked
/// again, and unlocks the secret key that was stored with it. Under the
/// empty password the secret key reads as it is stored.
pub proof fn lemma_set_password_then_decrypt(pre: ConfigView, post: ConfigView, password: Seq<char>)
    requires
        set_password_post(pre, post, password),
    ensures
        decrypt_config_spec(post, password) == Ok::<(), ConfigError>(()),
        decrypt_config_spec(ConfigView { password: None, ..post }, password) == Ok::<
            (),
            ConfigError,
        >(()),
        get_secret_key_spec(post) matches Ok(secret) && valid_secret(secret) && stored_under(
            password,
            secret,
            post.db->0.secret_key->0,
        ),
        password.len() == 0 ==> get_secret_key_spec(post) == Ok::<Seq<u8>, ConfigError>(
            post.db->0.secret_key->0,
        ) && post.db->0.password_test == Some(password_test()),
{
}

/// A store whose password is empty rejects every other password, and a store
/// whose password is not empty rejects the empty one.
pub proof fn lemma_empty_password_is_told_apart(
    pre: ConfigView,
    post: ConfigView,
    password: Seq<char>,
    other: Seq<char>,
)
    requires
        set_password_post(pre, post, password),
        (password.len() == 0) != (other.len() == 0),
    ensures
        decrypt_config_spec(post, other) == Err::<(), ConfigError>(ConfigError::WrongPassword),
{
}

/// Whatever password is tried on a store on which a password was set, it
/// either verifies or is rejected as wrong, and it verifies exactly where
/// the stored marker is accepted under it.
pub proof fn lemma_password_verifies_or_is_wrong(
    pre: ConfigView,
    post: ConfigView,
    password: Seq<char>,
    other: Seq<char>,
)
    requires
        set_password_post(pre, post, password),
    ensures
        decrypt_config_spec(post, other) is Err ==> decrypt_config_spec(post, other) == Err::<
            (),
            ConfigError,
        >(ConfigError::WrongPassword),
        decrypt_config_spec(post, other) is Ok <==> marker_accepts(
            post.db->0.password_test->0,
            other,
        ),
{
}

} // verus!
