//! Key custodian: obtains or lazily creates the 32-byte symmetric key in
//! the platform's secure storage.
//!
//! The key is stored base64-encoded under a service name and a fixed
//! account label. A custodian is built either over the platform store
//! ([`init_service`]) or over a fixed in-memory key
//! ([`KeyStore::set_test_key`]), which keeps every caller independent of
//! the platform vault. What the platform store holds is outside state, so
//! the exact contracts live on the verified pieces that run after the
//! lookup: [`KeyStore::key_from_stored`] and [`KeyStore::into_fixed`].

use vstd::prelude::*;

use base64::engine::general_purpose::STANDARD;
use base64::Engine as _;
use chacha20poly1305::aead::rand_core::{OsRng, RngCore as _};
use vstd::string::StrSliceExecFns;

verus! {

#[derive(Debug, Clone, PartialEq)]
pub enum KeystoreError {
    /// The platform store failed; the payload is its diagnostic text.
    PlatformFailure(String),
    /// The platform store could not be reached at all.
    NoStorageAccess(String),
    /// No entry exists under the service and account; handled internally
    /// by first-use creation and not surfaced past it.
    NoEntry,
    /// The stored credential is not UTF-8.
    BadEncoding(Vec<u8>),
    /// The stored credential is not base64: the raw bytes and the decoder's
    /// diagnostic text.
    BadDataFormat(Vec<u8>, String),
    /// An attribute exceeds a platform length limit.
    TooLong(String, u32),
    /// An attribute was rejected by the platform store.
    Invalid(String, String),
    /// The entry is matched by several stored credentials.
    Ambiguous(usize),
    /// The decoded key is not exactly 32 bytes.
    InvalidLength,
    Other,
}

/// What base64's standard-alphabet decoding returns: the decoded bytes, or
/// nothing when the input is not well-formed base64.
pub uninterp spec fn b64_decoded_of(s: Seq<char>) -> Option<Seq<u8>>;

/// Relies on base64 (Engine::encode with the STANDARD engine): encoding is
/// deterministic and decoding the result gives the input back.
#[verifier::external_body]
fn base64_encode(bytes: &Vec<u8>) -> (r: String)
    ensures
        b64_decoded_of(r@) == Some(bytes@),
{
    STANDARD.encode(bytes)
}

/// Relies on base64 (Engine::decode with the STANDARD engine): succeeds
/// exactly on well-formed input; on failure the decoder's diagnostic text
/// is returned.
#[verifier::external_body]
fn base64_decode(s: &str) -> (r: Result<Vec<u8>, String>)
    ensures
        r matches Ok(v) ==> b64_decoded_of(s@) == Some(v@),
        r matches Err(_) ==> b64_decoded_of(s@) is None,
{
    match STANDARD.decode(s) {
        Ok(v) => Ok(v),
        Err(e) => Err(format!("{e}")),
    }
}

/// Relies on keyring::Error's variants: each is carried over one to one,
/// platform payloads rendered to their diagnostic text, an ambiguous match
/// to the number of matching credentials.
#[verifier::external_body]
fn map_keyring_error(err: keyring::Error) -> (r: KeystoreError)
{
    match err {
        keyring::Error::PlatformFailure(inner) => KeystoreError::PlatformFailure(format!("{inner}")),
        keyring::Error::NoStorageAccess(inner) => KeystoreError::NoStorageAccess(format!("{inner}")),
        keyring::Error::NoEntry => KeystoreError::NoEntry,
        keyring::Error::BadEncoding(bytes) => KeystoreError::BadEncoding(bytes),
        keyring::Error::TooLong(attr, limit) => KeystoreError::TooLong(attr, limit),
        keyring::Error::Invalid(attr, reason) => KeystoreError::Invalid(attr, reason),
        keyring::Error::Ambiguous(entries) => KeystoreError::Ambiguous(entries.len()),
        _ => KeystoreError::Other,
    }
}

#[verifier::external_type_specification]
#[verifier::external_body]
pub struct ExKeyringError(keyring::Error);

#[verifier::external_type_specification]
#[verifier::external_body]
pub struct ExEntry(keyring::Entry);

/// Relies on keyring::Entry::new: builds a handle on the platform store's
/// entry for the service and user; fails only when those names are invalid
/// for the platform.
#[verifier::external_body]
fn keyring_entry_new(service: &str, user: &str) -> (r: Result<keyring::Entry, KeystoreError>)
{
    match keyring::Entry::new(service, user) {
        Ok(entry) => Ok(entry),
        Err(e) => Err(map_keyring_error(e)),
    }
}

/// Relies on keyring::Entry::get_password: returns the stored string, the
/// distinguished "no entry" outcome, or a platform failure. The value read
/// is outside state, so nothing is promised of it.
#[verifier::external_body]
fn keyring_get_password(entry: &keyring::Entry) -> (r: Result<Option<String>, KeystoreError>)
    ensures
        r matches Err(e) ==> !(e is NoEntry),
{
    match entry.get_password() {
        Ok(password) => Ok(Some(password)),
        Err(keyring::Error::NoEntry) => Ok(None),
        Err(e) => Err(map_keyring_error(e)),
    }
}

/// Relies on keyring::Entry::set_password: persists the string under the
/// entry, replacing any previous value.
#[verifier::external_body]
fn keyring_set_password(entry: &keyring::Entry, password: &str) -> (r: Result<(), KeystoreError>)
{
    match entry.set_password(password) {
        Ok(()) => Ok(()),
        Err(e) => Err(map_keyring_error(e)),
    }
}

/// The key custodian: either the platform secure store under a service
/// name, or a fixed in-memory key that keeps callers off the platform
/// vault.
#[derive(Debug, Clone)]
pub enum KeyStore {
    Platform(String),
    Fixed(Vec<u8>),
}

/// Builds a custodian over the platform secure store, for entries of the
/// given service name.
pub fn init_service(name: &str) -> (ks: KeyStore)
    ensures
        ks matches KeyStore::Platform(s) && s@ == name@,
{
    KeyStore::Platform(name.to_owned())
}

impl KeyStore {
    /// A custodian is well formed when a fixed key has the key length.
    pub open spec fn wf(&self) -> bool {
        match self {
            KeyStore::Fixed(key) => key@.len() == 32,
            KeyStore::Platform(_) => true,
        }
    }

    /// Builds a custodian around a fixed key, bypassing the platform
    /// store; `get_or_create_key` then returns exactly this key.
    pub fn set_test_key(key: Vec<u8>) -> (ks: KeyStore)
        requires
            key@.len() == 32,
        ensures
            ks == KeyStore::Fixed(key),
            ks.wf(),
    {
        KeyStore::Fixed(key)
    }

    /// The service name this custodian stores under.
    pub fn service_str(&self) -> (r: &str)
        requires
            self matches KeyStore::Platform(_),
        ensures
            self matches KeyStore::Platform(s) ==> r@ == s@,
    {
        match self {
            KeyStore::Platform(service) => service.as_str(),
            KeyStore::Fixed(_) => "",
        }
    }

    /// Fetches the symmetric key, creating and persisting a fresh one on
    /// the first call that finds no entry.
    ///
    /// First-time creation is not serialized across tasks or processes:
    /// two racing first callers may both generate a key, and the store
    /// keeps the last write. A caller that must observe one key value
    /// serializes its own first call.
    ///
    /// With a fixed key the result is that key. With the platform store
    /// the result depends on outside state: whatever comes back is 32
    /// bytes, and a stored value that does not decode to 32 bytes is
    /// rejected as [`KeyStore::key_from_stored`] states.
    pub fn get_or_create_key(&self) -> (r: Result<Vec<u8>, KeystoreError>)
        requires
            self.wf(),
        ensures
            r matches Ok(k) ==> k@.len() == 32,
            self matches KeyStore::Fixed(key) ==> (r matches Ok(k) && k@ == key@),
    {
        let service = match self {
            KeyStore::Fixed(key) => {
                return Ok(vstd::slice::slice_to_vec(key.as_slice()));
            },
            KeyStore::Platform(service) => service,
        };
        let entry = match keyring_entry_new(service.as_str(), "encryption_key_v1") {
            Ok(entry) => entry,
            Err(e) => {
                return Err(e);
            },
        };
        match keyring_get_password(&entry) {
            Ok(Some(stored)) => Self::key_from_stored(stored.as_str()),
            Ok(None) => {
                let key = Self::generate_key();
                let encoded = base64_encode(&key);
                match keyring_set_password(&entry, encoded.as_str()) {
                    Ok(()) => Ok(key),
                    Err(e) => Err(e),
                }
            },
            Err(e) => Err(e),
        }
    }

    /// Decodes a stored credential into the key it holds: rejects a value
    /// that is not base64, then one that is not exactly 32 bytes.
    pub fn key_from_stored(stored: &str) -> (r: Result<Vec<u8>, KeystoreError>)
        ensures
            match b64_decoded_of(stored@) {
                Some(bytes) => if bytes.len() == 32 {
                    r matches Ok(k) && k@ == bytes
                } else {
                    r == Err::<Vec<u8>, KeystoreError>(KeystoreError::InvalidLength)
                },
                None => (r matches Err(e) && e matches KeystoreError::BadDataFormat(_, _)),
            },
    {
        match base64_decode(stored) {
            Ok(bytes) => Self::into_fixed(bytes),
            Err(cause) => Err(KeystoreError::BadDataFormat(stored.as_bytes_vec(), cause)),
        }
    }

    /// Relies on the OS RNG (rand_core::OsRng::fill_bytes): 32 random
    /// bytes; nothing can be promised of the value itself.
    #[verifier::external_body]
    pub fn generate_key() -> (r: Vec<u8>)
        ensures
            r@.len() == 32,
    {
        let mut key = vec![0u8; 32];
        OsRng.fill_bytes(&mut key);
        key
    }

    /// Accepts exactly 32 bytes as a key.
    pub fn into_fixed(bytes: Vec<u8>) -> (r: Result<Vec<u8>, KeystoreError>)
        ensures
            bytes@.len() == 32 ==> (r matches Ok(k) && k@ == bytes@),
            bytes@.len() != 32 ==> r == Err::<Vec<u8>, KeystoreError>(KeystoreError::InvalidLength),
    {
        if bytes.len() != 32 {
            return Err(KeystoreError::InvalidLength);
        }
        Ok(bytes)
    }
}

} // verus!
