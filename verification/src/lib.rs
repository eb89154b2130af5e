//! The private-key half of BIP-340 Schnorr signatures over secp256k1, with
//! BIP-341 taproot tweaking and prompt erasure of secret material.
//!
//! A [`schnorr::private::PrivateKey`] owns one secret scalar in `[1, n - 1]`.
//! It is constructed from 32 bytes or from hexadecimal text, tweaked into a
//! new key, borrowed to sign 32-byte digests, and zero-filled when released.
//! The curve arithmetic, the tagged hashes and the signing primitive are
//! those of the `secp256k1` and `bitcoin` crates, reached through [`engine`];
//! everything else is proved against the contracts stated there.

pub mod bytes;
pub mod engine;
pub mod error;
pub mod hex;
pub mod scalar;
pub mod schnorr;
pub mod secret;
