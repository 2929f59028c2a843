//! Presentation-side error: maps every error kind of the subsystem to a
//! fixed user-facing message.
//!
//! No raw secret material or key bytes ever reach a message: each mapping
//! is to a constant text, stated exactly by the `*_message` spec
//! functions.

use vstd::prelude::*;

use crate::crypto::CryptoError;
use crate::grpc_client::GrpcClientError;
use crate::keystore::KeystoreError;
use crate::repository::DieselSettingsRepositoryError;
use crate::usecase::SettingsError;
use vstd::string::StringExecFns;

verus! {

/// A user-facing error: nothing but its message.
#[derive(Debug, Clone, PartialEq)]
pub struct UIError {
    message: String,
}

/// The message shown for a crypto failure.
pub open spec fn crypto_error_message(e: CryptoError) -> Seq<char> {
    match e {
        CryptoError::InvalidKey => "Crypto: invalid key detected"@,
        CryptoError::InvalidNonceLen(_) => "Crypto: invalid nonce length detected"@,
        CryptoError::Encrypt => "Crypto: encryption failed"@,
        CryptoError::Decrypt => "Crypto: decryption failed"@,
    }
}

/// The message shown for a key-custody failure.
pub open spec fn keystore_error_message(e: KeystoreError) -> Seq<char> {
    match e {
        KeystoreError::PlatformFailure(_) => "Keystore: platform failure"@,
        KeystoreError::NoStorageAccess(_) => "Keystore: storage unavailable"@,
        KeystoreError::NoEntry => "Keystore: entry not found"@,
        KeystoreError::BadEncoding(_) => "Keystore: invalid encoding"@,
        KeystoreError::BadDataFormat(_, _) => "Keystore: invalid data format"@,
        KeystoreError::TooLong(_, _) => "Keystore: attribute too long"@,
        KeystoreError::Invalid(_, _) => "Keystore: invalid attribute"@,
        KeystoreError::Ambiguous(_) => "Keystore: ambiguous credentials"@,
        KeystoreError::InvalidLength => "Keystore: invalid length detected"@,
        KeystoreError::Other => "Keystore: unknown error occurred"@,
    }
}

/// The message shown for a settings-store failure.
pub open spec fn settings_error_message(e: SettingsError) -> Seq<char> {
    match e {
        SettingsError::DieselSettingsRepository(repo) => match repo {
            DieselSettingsRepositoryError::Database(_) => "Database error occurred"@,
            DieselSettingsRepositoryError::Crypto(c) => crypto_error_message(c),
            DieselSettingsRepositoryError::Keystore(k) => keystore_error_message(k),
        },
    }
}

/// The message shown for a connection failure.
pub open spec fn grpc_error_message(e: GrpcClientError) -> Seq<char> {
    match e {
        GrpcClientError::InvalidUrl => "grpc: invalid URL detected"@,
        GrpcClientError::InvalidUri => "grpc: invalid URI detected"@,
        GrpcClientError::InvalidTlsDomain => "grpc: invalid TLS domain detected"@,
        GrpcClientError::Transport(_) => "grpc: transport error occurred"@,
        GrpcClientError::InvalidAuthToken => "grpc: invalid auth token detected"@,
    }
}

impl UIError {
    /// The message carried by this error.
    pub closed spec fn spec_message(&self) -> Seq<char> {
        self.message@
    }

    /// The message carried by this error.
    pub fn message(&self) -> (r: &str)
        ensures
            r@ == self.spec_message(),
    {
        self.message.as_str()
    }

    /// Maps a settings-store failure to its user-facing message.
    pub fn from_settings_error(err: &SettingsError) -> (r: UIError)
        ensures
            r.spec_message() == settings_error_message(*err),
    {
        let text: &str = match err {
            SettingsError::DieselSettingsRepository(repo) => match repo {
                DieselSettingsRepositoryError::Database(_) => "Database error occurred",
                DieselSettingsRepositoryError::Crypto(c) => match c {
                    CryptoError::InvalidKey => "Crypto: invalid key detected",
                    CryptoError::InvalidNonceLen(_) => "Crypto: invalid nonce length detected",
                    CryptoError::Encrypt => "Crypto: encryption failed",
                    CryptoError::Decrypt => "Crypto: decryption failed",
                },
                DieselSettingsRepositoryError::Keystore(k) => match k {
                    KeystoreError::PlatformFailure(_) => "Keystore: platform failure",
                    KeystoreError::NoStorageAccess(_) => "Keystore: storage unavailable",
                    KeystoreError::NoEntry => "Keystore: entry not found",
                    KeystoreError::BadEncoding(_) => "Keystore: invalid encoding",
                    KeystoreError::BadDataFormat(_, _) => "Keystore: invalid data format",
                    KeystoreError::TooLong(_, _) => "Keystore: attribute too long",
                    KeystoreError::Invalid(_, _) => "Keystore: invalid attribute",
                    KeystoreError::Ambiguous(_) => "Keystore: ambiguous credentials",
                    KeystoreError::InvalidLength => "Keystore: invalid length detected",
                    KeystoreError::Other => "Keystore: unknown error occurred",
                },
            },
        };
        UIError { message: String::from_str(text) }
    }

    /// Maps a connection failure to its user-facing message.
    pub fn from_grpc_error(err: &GrpcClientError) -> (r: UIError)
        ensures
            r.spec_message() == grpc_error_message(*err),
    {
        let text: &str = match err {
            GrpcClientError::InvalidUrl => "grpc: invalid URL detected",
            GrpcClientError::InvalidUri => "grpc: invalid URI detected",
            GrpcClientError::InvalidTlsDomain => "grpc: invalid TLS domain detected",
            GrpcClientError::Transport(_) => "grpc: transport error occurred",
            GrpcClientError::InvalidAuthToken => "grpc: invalid auth token detected",
        };
        UIError { message: String::from_str(text) }
    }

    /// Wraps a storage-pool diagnostic into a user-facing error.
    pub fn from_pool_error(cause: &str) -> (r: UIError)
        ensures
            r.spec_message() == "Database connection error: "@ + cause@,
    {
        UIError { message: String::from_str("Database connection error: ").concat(cause) }
    }
}

/// The error shown when a connect is attempted before the endpoint and
/// credential are configured.
pub fn url_access_token_empty_error() -> (r: UIError)
    ensures
        r.spec_message() == "URL or access token is empty"@,
{
    UIError { message: String::from_str("URL or access token is empty") }
}

} // verus!
