//! Secure peer-to-peer file transfer: the verified core.
//!
//! - [`protocol`]: the message model and the frame format (magic, length, payload).
//! - [`security`]: AES-256-GCM encryption of chunks and SHA-256 file digests.
//! - [`network`]: the frame header, the key exchange and the decisions of both peers.
//! - [`file_transfer`]: the chunked, acknowledged transfer of an encrypted file.
//! - [`tls`]: TLS configurations from PEM certificates and keys.
pub mod protocol;
pub mod security;
pub mod network;
pub mod file_transfer;
pub mod tls;
