//! The errors that key operations report.

use vstd::prelude::*;

verus! {

/// Why an operation on a key or a signature was refused.
#[derive(Debug, Clone, Copy, PartialEq, Eq, Structural)]
pub enum KeyPairError {
    /// The bytes are not 32 in number or spell no scalar in `[1, n - 1]`.
    InvalidSecretKey,
    /// The text is not an even number of hexadecimal digits.
    InvalidHex,
    /// The digest to sign is not exactly 32 bytes long.
    InvalidMessage,
    /// The taproot tweak is no scalar of the field, or it cancels the key.
    InvalidTweak,
    /// The bytes are not a 64-byte signature.
    InvalidSignature,
}

/// The result of a fallible key operation.
pub type KeyPairResult<T> = Result<T, KeyPairError>;

} // verus!
