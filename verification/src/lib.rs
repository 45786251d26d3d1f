//! A tagged union over the secret keys of several signature schemes.
//!
//! The library represents an Ed25519 secret key, a BLS secret key, and a
//! single share of a threshold-split BLS secret key behind one closed enum,
//! [`secret_key::SecretKey`]. Key material is held as exactly 32 secret
//! bytes ([`secret_bytes::SecretBytes`]), whose textual rendering is a fixed
//! placeholder: raw bytes are reachable only through an explicitly named
//! accessor. A tagged byte encoding with a proved round trip is in
//! [`codec`], and conversions from the native BLS key types of the
//! `threshold_crypto` crate are in [`bls`].

pub mod bls;
pub mod codec;
pub mod secret_bytes;
pub mod secret_key;
