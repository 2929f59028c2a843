//! The settings store around the persisted singleton row.
//!
//! The storage engine itself only moves rows in and out; everything the
//! store decides — obtaining the key, sealing and unsealing the access
//! token, materializing the default record on first read — happens here,
//! on plain row values. [`read_settings`] is the read half run on the
//! fetched row; [`write_settings`] is the write half producing the row to
//! persist with a transaction-scoped replace of the singleton.

use vstd::prelude::*;

use crate::crypto::{unseal_string_spec, CryptoBox, CryptoError};
use crate::keystore::{KeyStore, KeystoreError};
use crate::settings::Settings;

verus! {

/// The persisted shape of the configuration: the singleton row of the
/// settings table. The access token appears only sealed, together with
/// the nonce it was sealed under.
#[derive(Debug, Clone, PartialEq)]
pub struct SettingEntity {
    pub id: i32,
    pub url: String,
    pub encrypted_access_token: Vec<u8>,
    pub encrypted_access_token_nonce: Vec<u8>,
    pub use_proxies: bool,
    pub proxy_url: String,
}

#[derive(Debug, Clone, PartialEq)]
pub enum DieselSettingsRepositoryError {
    /// A storage-engine failure, with its diagnostic text.
    Database(String),
    Crypto(CryptoError),
    Keystore(KeystoreError),
}

/// The repository interface over the settings store, for callers that
/// supply their own storage.
pub trait SettingsRepository {
    fn get(&mut self) -> Result<Option<Settings>, DieselSettingsRepositoryError>;

    fn set(&mut self, setting: Settings) -> Result<(), DieselSettingsRepositoryError>;
}

/// The record the store materializes when no row exists yet: empty URL,
/// empty token, proxy disabled, under the fixed singleton id.
pub open spec fn is_default_settings(s: Settings) -> bool {
    &&& s.id == 1
    &&& s.url@ == Seq::<char>::empty()
    &&& s.access_token@ == Seq::<char>::empty()
    &&& !s.use_proxies
    &&& s.proxy_url@ == Seq::<char>::empty()
}

/// What unsealing the row's token pair under `key` yields.
pub open spec fn row_unseal(key: Seq<u8>, e: SettingEntity) -> Result<Seq<char>, CryptoError> {
    unseal_string_spec(key, e.encrypted_access_token_nonce@, e.encrypted_access_token@)
}

/// The row carries the non-secret fields of `s` and its token pair
/// unseals, under `key`, to the access token of `s`.
pub open spec fn row_seals_settings(key: Seq<u8>, e: SettingEntity, s: Settings) -> bool {
    &&& e.id == 1
    &&& e.url@ == s.url@
    &&& e.use_proxies == s.use_proxies
    &&& e.proxy_url@ == s.proxy_url@
    &&& row_unseal(key, e) == Ok::<Seq<char>, CryptoError>(s.access_token@)
}

/// The non-secret fields of the record equal those of the row.
pub open spec fn settings_match_row(s: Settings, e: SettingEntity) -> bool {
    &&& s.id == e.id
    &&& s.url@ == e.url@
    &&& s.use_proxies == e.use_proxies
    &&& s.proxy_url@ == e.proxy_url@
}

/// The read half of the store, run on the row the storage engine fetched
/// (or on `None` when the table is empty).
///
/// A present row is unsealed into the full record. An absent row
/// materializes the default record and also returns the sealed default
/// row, which the caller must insert so that a record exists after the
/// first read.
pub fn read_settings(ks: &KeyStore, row: Option<SettingEntity>) -> (r: Result<
    (Settings, Option<SettingEntity>),
    DieselSettingsRepositoryError,
>)
    requires
        ks.wf(),
    ensures
        r matches Err(err) ==> !(err matches DieselSettingsRepositoryError::Database(_)),
        r matches Ok(p) ==> match row {
            Some(e0) => p.1 is None && settings_match_row(p.0, e0),
            None => {
                &&& is_default_settings(p.0)
                &&& p.1 matches Some(e1) && row_seals_settings_any_key(e1)
            },
        },
        ks matches KeyStore::Fixed(key) ==> match row {
            Some(e0) => match r {
                Ok(p) => row_unseal(key@, e0) == Ok::<Seq<char>, CryptoError>(p.0.access_token@),
                Err(err) => (row_unseal(key@, e0) matches Err(ce) && err
                    == DieselSettingsRepositoryError::Crypto(ce)),
            },
            None => match r {
                Ok(p) => (p.1 matches Some(e1) && row_seals_settings(key@, e1, p.0)),
                Err(err) => err == DieselSettingsRepositoryError::Crypto(CryptoError::Encrypt),
            },
        },
{
    let key = match ks.get_or_create_key() {
        Ok(k) => k,
        Err(e) => {
            return Err(DieselSettingsRepositoryError::Keystore(e));
        },
    };
    let cipher = match CryptoBox::new(key.as_slice()) {
        Ok(c) => c,
        Err(e) => {
            return Err(DieselSettingsRepositoryError::Crypto(e));
        },
    };
    match row {
        Some(entity) => {
            let access_token = match cipher.decrypt_string(
                entity.encrypted_access_token.as_slice(),
                entity.encrypted_access_token_nonce.as_slice(),
            ) {
                Ok(t) => t,
                Err(e) => {
                    return Err(DieselSettingsRepositoryError::Crypto(e));
                },
            };
            let settings = Settings {
                id: entity.id,
                url: entity.url,
                access_token,
                use_proxies: entity.use_proxies,
                proxy_url: entity.proxy_url,
            };
            Ok((settings, None))
        },
        None => {
            let empty_token = String::new();
            let (ciphertext, nonce) = match cipher.encrypt_string(empty_token.as_str()) {
                Ok(pair) => pair,
                Err(e) => {
                    return Err(DieselSettingsRepositoryError::Crypto(e));
                },
            };
            proof {
                vstd::utf8::encode_utf8_valid_utf8(Seq::<char>::empty());
                vstd::utf8::encode_utf8_decode_utf8(Seq::<char>::empty());
            }
            let entity = SettingEntity {
                id: 1,
                url: String::new(),
                encrypted_access_token: ciphertext,
                encrypted_access_token_nonce: nonce,
                use_proxies: false,
                proxy_url: String::new(),
            };
            let settings = Settings {
                id: 1,
                url: String::new(),
                access_token: String::new(),
                use_proxies: false,
                proxy_url: String::new(),
            };
            Ok((settings, Some(entity)))
        },
    }
}

/// The shape a materialized default row always has, whatever key the
/// custodian supplied: default non-secret fields and a 12-byte nonce.
pub open spec fn row_seals_settings_any_key(e: SettingEntity) -> bool {
    &&& e.id == 1
    &&& e.url@ == Seq::<char>::empty()
    &&& !e.use_proxies
    &&& e.proxy_url@ == Seq::<char>::empty()
    &&& e.encrypted_access_token_nonce@.len() == 12
}

/// The write half of the store: obtains the key, seals the access token
/// under a fresh nonce, and returns the singleton row the storage engine
/// must write with an atomic replace.
pub fn write_settings(ks: &KeyStore, setting: &Settings) -> (r: Result<
    SettingEntity,
    DieselSettingsRepositoryError,
>)
    requires
        ks.wf(),
    ensures
        r matches Err(err) ==> !(err matches DieselSettingsRepositoryError::Database(_)),
        r matches Ok(e) ==> {
            &&& e.id == 1
            &&& e.url@ == setting.url@
            &&& e.use_proxies == setting.use_proxies
            &&& e.proxy_url@ == setting.proxy_url@
            &&& e.encrypted_access_token_nonce@.len() == 12
        },
        ks matches KeyStore::Fixed(key) ==> match r {
            Ok(e) => row_seals_settings(key@, e, *setting),
            Err(err) => err == DieselSettingsRepositoryError::Crypto(CryptoError::Encrypt),
        },
{
    let key = match ks.get_or_create_key() {
        Ok(k) => k,
        Err(e) => {
            return Err(DieselSettingsRepositoryError::Keystore(e));
        },
    };
    let cipher = match CryptoBox::new(key.as_slice()) {
        Ok(c) => c,
        Err(e) => {
            return Err(DieselSettingsRepositoryError::Crypto(e));
        },
    };
    let (ciphertext, nonce) = match cipher.encrypt_string(setting.access_token.as_str()) {
        Ok(pair) => pair,
        Err(e) => {
            return Err(DieselSettingsRepositoryError::Crypto(e));
        },
    };
    proof {
        vstd::utf8::encode_utf8_valid_utf8(setting.access_token@);
        vstd::utf8::encode_utf8_decode_utf8(setting.access_token@);
    }
    Ok(SettingEntity {
        id: 1,
        url: setting.url.clone(),
        encrypted_access_token: ciphertext,
        encrypted_access_token_nonce: nonce,
        use_proxies: setting.use_proxies,
        proxy_url: setting.proxy_url.clone(),
    })
}

/// Write/read round trip: a record written by `write_settings` and read
/// back by `read_settings` comes back with exactly the written fields,
/// under the fixed singleton id. The only failure the pair of calls can
/// show is the cipher refusing to seal.
pub fn write_then_read(ks: &KeyStore, setting: &Settings) -> (r: Result<
    Settings,
    DieselSettingsRepositoryError,
>)
    requires
        ks matches KeyStore::Fixed(key) && key@.len() == 32,
    ensures
        r matches Ok(s) ==> {
            &&& s.id == 1
            &&& s.url@ == setting.url@
            &&& s.access_token@ == setting.access_token@
            &&& s.use_proxies == setting.use_proxies
            &&& s.proxy_url@ == setting.proxy_url@
        },
        r matches Err(err) ==> err == DieselSettingsRepositoryError::Crypto(CryptoError::Encrypt),
{
    let entity = match write_settings(ks, setting) {
        Ok(e) => e,
        Err(err) => {
            return Err(err);
        },
    };
    match read_settings(ks, Some(entity)) {
        Ok((settings, _)) => Ok(settings),
        Err(err) => Err(err),
    }
}

/// Default materialization is idempotent: the default record materialized
/// on an empty store and the record read back from the row it persisted
/// are identical. The only failure the pair of calls can show is the
/// cipher refusing to seal.
pub fn materialize_default_then_read(ks: &KeyStore) -> (r: Result<
    (Settings, Settings),
    DieselSettingsRepositoryError,
>)
    requires
        ks matches KeyStore::Fixed(key) && key@.len() == 32,
    ensures
        r matches Ok(p) ==> {
            &&& is_default_settings(p.0)
            &&& is_default_settings(p.1)
        },
        r matches Err(err) ==> err == DieselSettingsRepositoryError::Crypto(CryptoError::Encrypt),
{
    let (first, inserted) = match read_settings(ks, None) {
        Ok(p) => p,
        Err(err) => {
            return Err(err);
        },
    };
    let entity = match inserted {
        Some(e) => e,
        None => {
            return Err(DieselSettingsRepositoryError::Crypto(CryptoError::Encrypt));
        },
    };
    match read_settings(ks, Some(entity)) {
        Ok((second, _)) => Ok((first, second)),
        Err(err) => Err(err),
    }
}

} // verus!
