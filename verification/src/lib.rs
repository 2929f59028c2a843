//! Backend library for a desktop client of a remote telemetry service.
//!
//! The library pairs an encrypted credential store with a connection
//! manager: a platform key custodian supplies a 32-byte symmetric key,
//! an AEAD cipher seals the access token before it is persisted, and a
//! connection manager validates the stored configuration before a
//! TLS-secured RPC channel is opened with the credential attached to
//! every call.

pub mod crypto;
pub mod grpc_client;
pub mod keystore;
pub mod repository;
pub mod settings;
pub mod ui_error;
pub mod usecase;
