//! Decoder for an encrypted, legacy password-database container format.
//!
//! The pipeline is a pure function from raw file bytes and a passphrase to a
//! structured database: a fixed binary header is validated, a decryption key
//! is derived from the passphrase by deliberate key stretching, the body is
//! block-decrypted, and the plaintext is read as a stream of type-length-value
//! records describing groups and entries.

pub mod api;
pub mod config;
pub mod crypt;
pub mod datetime;
pub mod errors;
pub mod kdb;
pub mod keys;
pub mod model;
pub mod parser;
pub mod records;
pub mod strutil;
pub mod tlv;
