//! Public keys in the x-only form of BIP-340.

use vstd::prelude::*;

verus! {

/// The public point of a private key: its x-coordinate, and the parity of
/// its y-coordinate. BIP-340 identifies a key by the x-coordinate alone and
/// reads it as the point with the even y-coordinate.
#[derive(Debug, Clone, Copy, PartialEq, Eq)]
pub struct PublicKey {
    x: [u8; 32],
    odd_y: bool,
}

impl View for PublicKey {
    type V = (Seq<u8>, bool);

    closed spec fn view(&self) -> (Seq<u8>, bool) {
        (self.x@, self.odd_y)
    }
}

impl PublicKey {
    /// A public key from the x-coordinate of its point and the parity of the
    /// y-coordinate.
    pub fn new(x: [u8; 32], odd_y: bool) -> (key: PublicKey)
        ensures
            key@ == (x@, odd_y),
    {
        PublicKey { x, odd_y }
    }

    /// The 32-byte x-coordinate.
    pub fn x_only(&self) -> (x: [u8; 32])
        ensures
            x@ == self@.0,
    {
        self.x
    }

    /// Whether the y-coordinate of the point is even.
    pub fn has_even_y(&self) -> (even: bool)
        ensures
            even == !self@.1,
    {
        !self.odd_y
    }
}

} // verus!
