//! Storage for secret bytes that is zero-filled when it is released.

use vstd::prelude::*;

use crate::engine::wipe;

verus! {

/// `len` zero bytes.
pub open spec fn zeros(len: nat) -> Seq<u8> {
    Seq::new(len, |i: int| 0u8)
}

/// Thirty-two secret bytes under single ownership.
///
/// The buffer is neither `Copy` nor `Clone`: whoever holds it holds the only
/// handle, and when that handle goes out of scope, on whatever path, the
/// bytes are overwritten with zeros by a write that the compiler may not
/// elide.
pub struct SecretBytes {
    bytes: [u8; 32],
}

impl View for SecretBytes {
    type V = Seq<u8>;

    closed spec fn view(&self) -> Seq<u8> {
        self.bytes@
    }
}

impl SecretBytes {
    /// Takes ownership of `bytes`.
    pub fn new(bytes: [u8; 32]) -> (secret: SecretBytes)
        ensures
            secret@ == bytes@,
    {
        SecretBytes { bytes }
    }

    /// The bytes, borrowed for as long as the buffer is.
    pub fn as_array(&self) -> (bytes: &[u8; 32])
        ensures
            bytes@ == self@,
    {
        &self.bytes
    }

    /// The bytes as a slice.
    pub fn as_slice(&self) -> (bytes: &[u8])
        ensures
            bytes@ == self@,
    {
        self.bytes.as_slice()
    }

    /// A buffer always holds 32 bytes.
    pub proof fn lemma_len(&self)
        ensures
            self@.len() == 32,
    {
    }

    /// Buffers that hold the same bytes are equal.
    pub proof fn lemma_view_injective(a: SecretBytes, b: SecretBytes)
        requires
            a@ == b@,
        ensures
            a == b,
    {
        assert(a.bytes =~= b.bytes);
    }
}

impl zeroize::Zeroize for SecretBytes {
    /// Overwrites the bytes with zeros.
    fn zeroize(&mut self)
        ensures
            final(self)@ == zeros(32),
    {
        wipe(&mut self.bytes);
    }
}

impl zeroize::ZeroizeOnDrop for SecretBytes {

}

impl Drop for SecretBytes {
    /// Zero-fills the buffer as its storage is released.
    fn drop(&mut self)
        ensures
            final(self)@ == zeros(32),
        opens_invariants none
        no_unwind
    {
        wipe(&mut self.bytes);
    }
}

} // verus!
