//! Authentication of two-field ledger records with Ed25519 signatures.
//!
//! A record holds two opaque text fields. Its canonical byte encoding is the
//! UTF-8 bytes of the first field immediately followed by the bytes of the
//! second, with no delimiter or length prefix. Signing produces an Ed25519
//! signature over those bytes; verification recomputes the bytes and tests a
//! candidate signature under a public key, reporting the outcome as a plain
//! boolean.

pub mod ed25519;
pub mod transaction;
