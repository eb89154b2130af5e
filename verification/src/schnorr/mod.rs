//! BIP-340 Schnorr keys and signatures.

pub mod laws;
pub mod private;
pub mod public;
pub mod signature;
