//! What holds of private keys across their operations.

use vstd::prelude::*;

use crate::engine::{even_y_scalar, has_odd_y, x_only_public_key_of, xonly_tweak_sum};
use crate::error::{KeyPairError, KeyPairResult};
use crate::scalar::{
    curve_order, is_valid_scalar, is_valid_secret, lemma_be_bytes_len, lemma_be_bytes_of_be_nat,
    lemma_be_nat_of_be_bytes, lemma_curve_order_fits,
};
use crate::schnorr::private::{
    exported, is_signing_outcome, key_from_bytes, tap_tweak_of, tweaked, KeyModel,
};

verus! {

/// Every 32 bytes that spell a scalar in `[1, n - 1]` construct a key, and
/// that key exports exactly those bytes.
pub proof fn lemma_constructed_key_exports_its_bytes(secret: Seq<u8>)
    requires
        is_valid_secret(secret),
    ensures
        key_from_bytes(secret) is Ok,
        exported(key_from_bytes(secret).unwrap()) == secret,
{
    lemma_be_bytes_of_be_nat(secret);
}

/// Bytes that are not 32 in number, and 32 bytes that spell zero or a number
/// from the group order upwards, construct no key: they are refused as an
/// invalid secret key.
pub proof fn lemma_invalid_secret_is_refused(data: Seq<u8>)
    requires
        !is_valid_secret(data),
    ensures
        key_from_bytes(data) == Err::<KeyModel, KeyPairError>(KeyPairError::InvalidSecretKey),
{
}

/// The bytes that a key exports construct a key of the same scalar.
pub proof fn lemma_exported_bytes_construct_the_key(key: KeyModel)
    requires
        is_valid_scalar(key.scalar),
    ensures
        key_from_bytes(exported(key)) == Ok::<KeyModel, KeyPairError>(
            KeyModel { scalar: key.scalar, deterministic: false },
        ),
{
    lemma_be_bytes_len(key.scalar, 32);
    lemma_curve_order_fits();
    lemma_be_nat_of_be_bytes(key.scalar, 32);
}

/// Every key that construction yields holds a scalar in `[1, n - 1]`.
pub proof fn lemma_constructed_key_is_valid(data: Seq<u8>)
    ensures
        key_from_bytes(data) matches Ok(key) ==> is_valid_scalar(key.scalar),
{
}

/// Every key that a tweak yields holds a scalar in `[1, n - 1]`, whatever
/// key went in.
pub proof fn lemma_tweaked_key_is_valid(key: KeyModel, merkle_root: Option<Seq<u8>>)
    ensures
        tweaked(key, merkle_root) matches Ok(out) ==> is_valid_scalar(out.scalar),
{
}

/// The public point of every key that a tweak yields has an even
/// y-coordinate, whatever the parity of the key that went in. The signing
/// mode is carried over.
pub proof fn lemma_tweaked_key_has_even_y(key: KeyModel, merkle_root: Option<Seq<u8>>)
    ensures
        tweaked(key, merkle_root) matches Ok(out) ==> {
            &&& !x_only_public_key_of(out.scalar).1
            &&& out.deterministic == key.deterministic
        },
{
}

/// A second tweak does not apply the offset of the first again. Where `once`
/// is `key` tweaked and `twice` is `once` tweaked, `twice` is the sum of
/// `once` and of the tweak that `once` has by its own public key, in the
/// form with the even y-coordinate: the scalar of `key` and its tweak enter
/// only through `once`.
pub proof fn lemma_second_tweak_starts_from_first(
    key: KeyModel,
    once: KeyModel,
    twice: KeyModel,
    merkle_root: Option<Seq<u8>>,
)
    requires
        tweaked(key, None) == Ok::<KeyModel, KeyPairError>(once),
        tweaked(once, merkle_root) == Ok::<KeyModel, KeyPairError>(twice),
    ensures
        twice.scalar == even_y_scalar(
            (once.scalar + tap_tweak_of(once.scalar, merkle_root)) % curve_order(),
        ),
{
    assert(!has_odd_y(once.scalar));
    assert(even_y_scalar(once.scalar) == once.scalar);
    assert(xonly_tweak_sum(once.scalar, tap_tweak_of(once.scalar, merkle_root)) == (once.scalar
        + tap_tweak_of(once.scalar, merkle_root)) % curve_order());
}

/// Deterministic signing is reproducible: two signing outcomes of one
/// deterministic key on one message are the same, bytes for bytes.
pub proof fn lemma_deterministic_signing_is_reproducible(
    key: KeyModel,
    message: Seq<u8>,
    first: KeyPairResult<Seq<u8>>,
    second: KeyPairResult<Seq<u8>>,
)
    requires
        key.deterministic,
        is_signing_outcome(key, message, first),
        is_signing_outcome(key, message, second),
    ensures
        first == second,
{
}

/// Signing succeeds on the digests of exactly 32 bytes, in either mode, and
/// fails on all others with `InvalidMessage`.
pub proof fn lemma_signing_accepts_32_bytes_only(
    key: KeyModel,
    message: Seq<u8>,
    outcome: KeyPairResult<Seq<u8>>,
)
    requires
        is_signing_outcome(key, message, outcome),
    ensures
        outcome is Ok <==> message.len() == 32,
        outcome is Err ==> outcome == Err::<Seq<u8>, KeyPairError>(KeyPairError::InvalidMessage),
{
}

} // verus!
