//! The curve engine: what this library takes on trust from `secp256k1`,
//! `bitcoin` and `zeroize`.
//!
//! Nothing in this file is proved. Each function wraps one function of an
//! outside crate, with the conversions that the call takes, and its contract
//! records what that crate's source shows of the call. Results that only the
//! curve arithmetic or SHA-256 can tell are given a name; the rest of the
//! library reasons about those names alone.
//!
//! Secrets cross this boundary as 32 bytes. The key pair that the engine
//! works on is built from them at each call; a function that takes a secret
//! asks for bytes that spell a scalar in `[1, n - 1]`, for which the engine
//! builds the pair without fail.

use vstd::prelude::*;

use crate::scalar::{be_nat, curve_order, is_valid_secret};
use crate::secret::zeros;

verus! {

/// `secp256k1::Error`, the error of the engine. It is carried out of the
/// calls below and never looked into.
#[verifier::external_type_specification]
#[verifier::external_body]
pub struct ExEngineError(secp256k1::Error);

/// `zeroize::Zeroize::zeroize` on a 32-byte array: every byte is overwritten
/// with zero by a volatile write, which the compiler may not elide. The call
/// does not unwind.
#[verifier::external_body]
pub(crate) fn wipe(bytes: &mut [u8; 32])
    ensures
        final(bytes)@ == zeros(32),
    opens_invariants none
    no_unwind
{
    zeroize::Zeroize::zeroize(bytes);
}

/// `secp256k1::KeyPair::from_seckey_slice`, then `secret_bytes` of the pair:
/// the slice is accepted if and only if it is 32 bytes long and spells a
/// scalar in `[1, n - 1]`, and the pair then holds those very bytes.
#[verifier::external_body]
pub(crate) fn keypair_from_seckey_slice(data: &[u8]) -> (r: Result<[u8; 32], secp256k1::Error>)
    ensures
        r is Ok <==> is_valid_secret(data@),
        r matches Ok(secret) ==> secret@ == data@,
{
    match secp256k1::KeyPair::from_seckey_slice(secp256k1::SECP256K1, data) {
        Ok(pair) => Ok(pair.secret_bytes()),
        Err(e) => Err(e),
    }
}

/// What `secp256k1::KeyPair::x_only_public_key` returns for the pair of the
/// secret scalar `scalar`: the 32-byte x-coordinate of the point
/// `scalar * G`, and whether the y-coordinate of that point is odd.
pub uninterp spec fn x_only_public_key_of(scalar: nat) -> (Seq<u8>, bool);

/// What `TapTweakHash::hash` returns for `data`: the 32-byte SHA-256 hash of
/// `data` under the tag `TapTweak`.
pub uninterp spec fn tap_tweak_hash_of(data: Seq<u8>) -> Seq<u8>;

/// What `Secp256k1::sign_schnorr_no_aux_rand` returns for the pair of the
/// secret scalar `scalar` and the 32-byte `digest`: a 64-byte signature.
pub uninterp spec fn schnorr_signature_of(scalar: nat, digest: Seq<u8>) -> Seq<u8>;

/// What `Secp256k1::sign_schnorr_with_aux_rand` returns for the pair of the
/// secret scalar `scalar`, the 32-byte `digest` and the 32 auxiliary bytes
/// `aux_rand`: a 64-byte signature.
pub uninterp spec fn schnorr_signature_with_aux_of(
    scalar: nat,
    digest: Seq<u8>,
    aux_rand: Seq<u8>,
) -> Seq<u8>;

/// Whether the point `scalar * G` has an odd y-coordinate.
pub open spec fn has_odd_y(scalar: nat) -> bool {
    x_only_public_key_of(scalar).1
}

/// The scalar among `scalar` and `n - scalar` that the engine holds to stand
/// for the x-only public key of `scalar`: `scalar` itself where its point has
/// an even y-coordinate, its negation where not.
pub open spec fn even_y_scalar(scalar: nat) -> nat {
    if has_odd_y(scalar) {
        (curve_order() - scalar) as nat
    } else {
        scalar
    }
}

/// The secret scalar of a key pair after `tweak` was added to its x-only
/// form, modulo the group order.
pub open spec fn xonly_tweak_sum(scalar: nat, tweak: nat) -> nat {
    (even_y_scalar(scalar) + tweak) % curve_order()
}

/// `secp256k1::KeyPair::x_only_public_key` on the pair of `secret`, the key
/// serialized and the parity as a flag that is set for an odd y-coordinate.
#[verifier::external_body]
pub(crate) fn x_only_public_key(secret: &[u8; 32]) -> (r: ([u8; 32], bool))
    requires
        is_valid_secret(secret@),
    ensures
        r.0@ == x_only_public_key_of(be_nat(secret@)).0,
        r.1 == x_only_public_key_of(be_nat(secret@)).1,
{
    let pair = secp256k1::KeyPair::from_seckey_slice(secp256k1::SECP256K1, secret)
        .expect("a scalar in [1, n - 1]");
    let (key, parity) = pair.x_only_public_key();
    match parity {
        secp256k1::Parity::Even => (key.serialize(), false),
        secp256k1::Parity::Odd => (key.serialize(), true),
    }
}

/// `bitcoin::hashes::Hash::hash` of `bitcoin::taproot::TapTweakHash`: the
/// tagged hash of `data`, a function of `data` alone.
#[verifier::external_body]
pub(crate) fn tap_tweak_hash(data: &[u8]) -> (r: [u8; 32])
    ensures
        r@ == tap_tweak_hash_of(data@),
{
    let hash: bitcoin::taproot::TapTweakHash = bitcoin::hashes::Hash::hash(data);
    bitcoin::hashes::Hash::to_byte_array(hash)
}

/// `secp256k1::Scalar::from_be_bytes`: the bytes are accepted if and only if
/// they spell a number below the group order.
#[verifier::external_body]
pub(crate) fn is_scalar(bytes: &[u8; 32]) -> (r: bool)
    ensures
        r == (be_nat(bytes@) < curve_order()),
{
    match secp256k1::Scalar::from_be_bytes(*bytes) {
        Ok(_) => true,
        Err(_) => false,
    }
}

/// `secp256k1::KeyPair::add_xonly_tweak` on the pair of `secret`: the engine
/// negates the secret scalar where its point has an odd y-coordinate, adds
/// the tweak modulo the group order, and refuses a sum of zero.
#[verifier::external_body]
pub(crate) fn add_xonly_tweak(secret: &[u8; 32], tweak: &[u8; 32]) -> (r: Result<
    [u8; 32],
    secp256k1::Error,
>)
    requires
        is_valid_secret(secret@),
        be_nat(tweak@) < curve_order(),
    ensures
        r is Ok <==> xonly_tweak_sum(be_nat(secret@), be_nat(tweak@)) != 0,
        r matches Ok(sum) ==> be_nat(sum@) == xonly_tweak_sum(be_nat(secret@), be_nat(tweak@)),
{
    let pair = secp256k1::KeyPair::from_seckey_slice(secp256k1::SECP256K1, secret)
        .expect("a scalar in [1, n - 1]");
    let scalar = secp256k1::Scalar::from_be_bytes(*tweak).expect("a scalar below n");
    match pair.add_xonly_tweak(secp256k1::SECP256K1, &scalar) {
        Ok(tweaked) => Ok(tweaked.secret_bytes()),
        Err(e) => Err(e),
    }
}

/// `secp256k1::SecretKey::negate`: the scalar `n - secret`.
#[verifier::external_body]
pub(crate) fn negate_secret(secret: &[u8; 32]) -> (r: [u8; 32])
    requires
        is_valid_secret(secret@),
    ensures
        be_nat(r@) == curve_order() - be_nat(secret@),
{
    secp256k1::SecretKey::from_slice(secret).expect("a scalar in [1, n - 1]").negate().secret_bytes()
}

/// `secp256k1::Secp256k1::sign_schnorr_no_aux_rand` with the pair of
/// `secret`: a function of the key and the digest alone.
///
/// The engine aborts where the nonce that it derives is zero, which takes a
/// SHA-256 output of `0` or `n`; no key and digest are known to give one.
#[verifier::external_body]
pub(crate) fn sign_schnorr_no_aux_rand(secret: &[u8; 32], digest: &[u8; 32]) -> (r: [u8; 64])
    requires
        is_valid_secret(secret@),
    ensures
        r@ == schnorr_signature_of(be_nat(secret@), digest@),
{
    let pair = secp256k1::KeyPair::from_seckey_slice(secp256k1::SECP256K1, secret)
        .expect("a scalar in [1, n - 1]");
    let message = secp256k1::Message::from_slice(digest).expect("32 bytes");
    *secp256k1::SECP256K1.sign_schnorr_no_aux_rand(&message, &pair).as_ref()
}

/// `secp256k1::Secp256k1::sign_schnorr_with_aux_rand` with the pair of
/// `secret`: a function of the key, the digest and the auxiliary bytes alone.
///
/// The engine aborts where the nonce that it derives is zero, which takes a
/// SHA-256 output of `0` or `n`; no key, digest and auxiliary bytes are
/// known to give one.
#[verifier::external_body]
pub(crate) fn sign_schnorr_with_aux_rand(
    secret: &[u8; 32],
    digest: &[u8; 32],
    aux_rand: &[u8; 32],
) -> (r: [u8; 64])
    requires
        is_valid_secret(secret@),
    ensures
        r@ == schnorr_signature_with_aux_of(be_nat(secret@), digest@, aux_rand@),
{
    let pair = secp256k1::KeyPair::from_seckey_slice(secp256k1::SECP256K1, secret)
        .expect("a scalar in [1, n - 1]");
    let message = secp256k1::Message::from_slice(digest).expect("32 bytes");
    *secp256k1::SECP256K1.sign_schnorr_with_aux_rand(&message, &pair, aux_rand).as_ref()
}

/// `rand::RngCore::fill_bytes` of `rand::thread_rng`, the generator that
/// `Secp256k1::sign_schnorr` draws its auxiliary data from: 32 bytes of
/// which nothing is known but their number. The generator aborts where the
/// operating system yields no entropy.
#[verifier::external_body]
pub(crate) fn fresh_aux_rand() -> [u8; 32] {
    let mut aux_rand = [0u8; 32];
    secp256k1::rand::RngCore::fill_bytes(&mut secp256k1::rand::thread_rng(), &mut aux_rand);
    aux_rand
}

} // verus!
