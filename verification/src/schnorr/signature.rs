//! Schnorr signatures as 64 bytes.

use vstd::prelude::*;

use crate::bytes::array_from_slice;
use crate::error::{KeyPairError, KeyPairResult};

verus! {

/// The number of bytes in a signature: the x-coordinate of the nonce point,
/// then the scalar `s`.
pub const SIGNATURE_SIZE: usize = 64;

/// A BIP-340 signature, immutable once made.
#[derive(Debug, Clone, Copy, PartialEq, Eq)]
pub struct Signature {
    bytes: [u8; SIGNATURE_SIZE],
}

impl View for Signature {
    type V = Seq<u8>;

    closed spec fn view(&self) -> Seq<u8> {
        self.bytes@
    }
}

/// What `Signature::from_bytes` makes of `bytes`, by the bytes that the
/// signature holds.
pub open spec fn signature_from(bytes: Seq<u8>) -> KeyPairResult<Seq<u8>> {
    if bytes.len() == 64 {
        Ok(bytes)
    } else {
        Err(KeyPairError::InvalidSignature)
    }
}

/// The bytes of the signature in `result`, or its error.
pub open spec fn signature_bytes(result: KeyPairResult<Signature>) -> KeyPairResult<Seq<u8>> {
    match result {
        Ok(signature) => Ok(signature@),
        Err(e) => Err(e),
    }
}

impl Signature {
    /// Takes 64 bytes as a signature; any other number of bytes is refused
    /// with `InvalidSignature`.
    pub fn from_bytes(bytes: &[u8]) -> (result: KeyPairResult<Signature>)
        ensures
            signature_bytes(result) == signature_from(bytes@),
    {
        match array_from_slice(bytes) {
            Some(bytes) => Ok(Signature { bytes }),
            None => Err(KeyPairError::InvalidSignature),
        }
    }

    /// The 64 bytes of the signature.
    pub fn bytes(&self) -> (bytes: [u8; 64])
        ensures
            bytes@ == self@,
    {
        self.bytes
    }
}

} // verus!
