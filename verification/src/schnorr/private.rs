//! The Schnorr private key: validated construction, taproot tweaking,
//! signing, and export under erasure.

use vstd::prelude::*;
use vstd::std_specs::convert::TryFromSpecImpl;
use vstd::string::StringSliceAdditionalSpecFns;

use crate::bytes::{append, array_from_slice};
use crate::engine::{
    add_xonly_tweak, even_y_scalar, fresh_aux_rand, has_odd_y, is_scalar, keypair_from_seckey_slice,
    negate_secret, schnorr_signature_of, schnorr_signature_with_aux_of, sign_schnorr_no_aux_rand,
    sign_schnorr_with_aux_rand, tap_tweak_hash, tap_tweak_hash_of, x_only_public_key,
    x_only_public_key_of, xonly_tweak_sum,
};
use crate::error::{KeyPairError, KeyPairResult};
use crate::hex::{decode, decode_spec};
use crate::scalar::{
    be_bytes, be_nat, curve_order, is_valid_scalar, is_valid_secret, lemma_be_bytes_of_be_nat,
    lemma_be_nat_injective,
};
use crate::schnorr::public::PublicKey;
use crate::schnorr::signature::{signature_bytes, Signature};
use crate::secret::SecretBytes;

verus! {

/// A 32-byte hash.
pub type H256 = [u8; 32];

/// The number of bytes in a message digest.
pub const DIGEST_SIZE: usize = 32;

/// The private key of a BIP-340 Schnorr signer.
///
/// The key owns one secret scalar, which is at all times a nonzero element
/// of the scalar field, and one flag that selects deterministic signing. It
/// is neither `Copy` nor `Clone`; when it is released, the bytes of the
/// scalar are zero-filled.
pub struct PrivateKey {
    secret: SecretBytes,
    no_aux_rand: bool,
}

/// What a private key stands for.
pub struct KeyModel {
    /// The secret scalar.
    pub scalar: nat,
    /// Whether signing draws no auxiliary randomness.
    pub deterministic: bool,
}

impl View for PrivateKey {
    type V = KeyModel;

    closed spec fn view(&self) -> KeyModel {
        KeyModel { scalar: be_nat(self.secret@), deterministic: self.no_aux_rand }
    }
}

/// The model of the key in `result`, or its error.
pub open spec fn model_of(result: KeyPairResult<PrivateKey>) -> KeyPairResult<KeyModel> {
    match result {
        Ok(key) => Ok(key@),
        Err(e) => Err(e),
    }
}

/// The key that `data` constructs: the scalar that exactly 32 bytes spell,
/// if it lies in `[1, n - 1]`, with randomized signing.
pub open spec fn key_from_bytes(data: Seq<u8>) -> KeyPairResult<KeyModel> {
    if is_valid_secret(data) {
        Ok(KeyModel { scalar: be_nat(data), deterministic: false })
    } else {
        Err(KeyPairError::InvalidSecretKey)
    }
}

/// The key that hexadecimal `text` constructs: that of the bytes it decodes
/// to.
pub open spec fn key_from_hex(text: Seq<u8>) -> KeyPairResult<KeyModel> {
    match decode_spec(text) {
        Some(data) => key_from_bytes(data),
        None => Err(KeyPairError::InvalidHex),
    }
}

/// The bytes that a key exports: its scalar in 32 bytes, most significant
/// first.
pub open spec fn exported(key: KeyModel) -> Seq<u8> {
    be_bytes(key.scalar, 32)
}

/// The bytes of an optional hash.
pub open spec fn hash_bytes(hash: Option<H256>) -> Option<Seq<u8>> {
    match hash {
        Some(hash) => Some(hash@),
        None => None,
    }
}

/// What is hashed into a taproot tweak: the x-coordinate of the public key,
/// followed by the merkle root where there is one.
pub open spec fn tap_tweak_message(x_only: Seq<u8>, merkle_root: Option<Seq<u8>>) -> Seq<u8> {
    match merkle_root {
        Some(root) => x_only + root,
        None => x_only,
    }
}

/// The taproot tweak of the key with secret scalar `scalar`: the tagged hash
/// of its public key and the merkle root, read as a number.
pub open spec fn tap_tweak_of(scalar: nat, merkle_root: Option<Seq<u8>>) -> nat {
    be_nat(tap_tweak_hash_of(tap_tweak_message(x_only_public_key_of(scalar).0, merkle_root)))
}

/// The key that tweaking `key` with `merkle_root` yields.
///
/// As BIP-341 prescribes, the tweak is added to the scalar that stands for
/// the x-only public key: to the scalar of `key` where its point has an even
/// y-coordinate, to its negation where not. The sum, taken modulo the group
/// order, is then brought to the form whose point has an even y-coordinate
/// in its turn.
///
/// The tweak is refused where the hash is no scalar of the field and where
/// the sum is zero. It is refused, too, should the engine report an odd
/// y-coordinate for a scalar and for its negation alike: no point of the
/// curve allows that, but the engine does not say so, and the key is not
/// handed out on its word.
pub open spec fn tweaked(key: KeyModel, merkle_root: Option<Seq<u8>>) -> KeyPairResult<KeyModel> {
    let tweak = tap_tweak_of(key.scalar, merkle_root);
    let sum = xonly_tweak_sum(key.scalar, tweak);
    let scalar = even_y_scalar(sum);
    if tweak >= curve_order() || sum == 0 || has_odd_y(scalar) {
        Err(KeyPairError::InvalidTweak)
    } else {
        Ok(KeyModel { scalar, deterministic: key.deterministic })
    }
}

/// The signature of `key` on `message` with the auxiliary bytes `aux_rand`.
pub open spec fn signed_with_aux_rand(
    key: KeyModel,
    message: Seq<u8>,
    aux_rand: Seq<u8>,
) -> KeyPairResult<Seq<u8>> {
    if message.len() == 32 {
        Ok(schnorr_signature_with_aux_of(key.scalar, message, aux_rand))
    } else {
        Err(KeyPairError::InvalidMessage)
    }
}

/// The signature of `key` on `message` without auxiliary bytes.
pub open spec fn signed_without_aux_rand(key: KeyModel, message: Seq<u8>) -> KeyPairResult<
    Seq<u8>,
> {
    if message.len() == 32 {
        Ok(schnorr_signature_of(key.scalar, message))
    } else {
        Err(KeyPairError::InvalidMessage)
    }
}

/// Whether `outcome` is one that signing `message` with `key` may have: the
/// one signature without auxiliary bytes for a deterministic key, a
/// signature with some 32 auxiliary bytes for any other.
pub open spec fn is_signing_outcome(
    key: KeyModel,
    message: Seq<u8>,
    outcome: KeyPairResult<Seq<u8>>,
) -> bool {
    if key.deterministic {
        outcome == signed_without_aux_rand(key, message)
    } else {
        exists|aux_rand: Seq<u8>|
            aux_rand.len() == 32 && outcome == #[trigger] signed_with_aux_rand(
                key,
                message,
                aux_rand,
            )
    }
}

/// Lays out what is hashed into a taproot tweak: `x_only`, then the merkle
/// root where there is one.
pub fn build_tap_tweak_message(x_only: &[u8; 32], merkle_root: &Option<H256>) -> (message: Vec<u8>)
    ensures
        message@ == tap_tweak_message(x_only@, hash_bytes(*merkle_root)),
{
    let mut message: Vec<u8> = Vec::new();
    append(&mut message, x_only.as_slice());
    match merkle_root {
        Some(root) => {
            append(&mut message, root.as_slice());
        },
        None => {},
    }
    message
}

/// The key that stands for `model`. Keys are told apart by their models
/// alone, so there is one at most.
pub closed spec fn key_of(model: KeyModel) -> PrivateKey {
    choose|key: PrivateKey| key@ == model
}

/// The key of the model in `result`, or its error.
pub open spec fn key_result(result: KeyPairResult<KeyModel>) -> KeyPairResult<PrivateKey> {
    match result {
        Ok(model) => Ok(key_of(model)),
        Err(e) => Err(e),
    }
}

impl PrivateKey {
    #[verifier::type_invariant]
    spec fn is_valid(self) -> bool {
        is_valid_secret(self.secret@)
    }

    /// A key is the only key of its model.
    pub proof fn lemma_key_of_view(&self)
        ensures
            key_of(self@) == *self,
    {
        let other = key_of(self@);
        assert(other@ == self@);
        self.secret.lemma_len();
        other.secret.lemma_len();
        lemma_be_nat_injective(self.secret@, other.secret@);
        SecretBytes::lemma_view_injective(self.secret, other.secret);
    }

    /// The public key: the point of the secret scalar, computed anew at each
    /// call.
    pub fn public(&self) -> (key: PublicKey)
        ensures
            key@ == x_only_public_key_of(self@.scalar),
    {
        proof {
            use_type_invariant(self);
        }
        let (x, odd_y) = x_only_public_key(self.secret.as_array());
        PublicKey::new(x, odd_y)
    }

    /// Commits the key to a taproot script tree: adds to it the tagged hash
    /// of its public key and of `tweak`, the merkle root of the tree. With
    /// `None` the key commits to no script at all, and the hash is that of
    /// the public key alone.
    ///
    /// The key that comes out always has a public point with an even
    /// y-coordinate. The key that went in is released, and zero-filled,
    /// whether the tweak succeeds or not.
    pub fn tweak(self, tweak: Option<H256>) -> (result: KeyPairResult<PrivateKey>)
        ensures
            model_of(result) == tweaked(self@, hash_bytes(tweak)),
            result matches Ok(key) ==> is_valid_scalar(key@.scalar) && !has_odd_y(key@.scalar),
    {
        proof {
            use_type_invariant(&self);
        }
        let (x_only, _) = x_only_public_key(self.secret.as_array());
        let message = build_tap_tweak_message(&x_only, &tweak);
        let offset = tap_tweak_hash(message.as_slice());
        if !is_scalar(&offset) {
            return Err(KeyPairError::InvalidTweak);
        }
        let sum = match add_xonly_tweak(self.secret.as_array(), &offset) {
            Ok(sum) => SecretBytes::new(sum),
            Err(_) => {
                return Err(KeyPairError::InvalidTweak);
            },
        };
        let (_, odd_y) = x_only_public_key(sum.as_array());
        if !odd_y {
            return Ok(PrivateKey { secret: sum, no_aux_rand: self.no_aux_rand });
        }
        let negated = SecretBytes::new(negate_secret(sum.as_array()));
        let (_, still_odd_y) = x_only_public_key(negated.as_array());
        if still_odd_y {
            return Err(KeyPairError::InvalidTweak);
        }
        Ok(PrivateKey { secret: negated, no_aux_rand: self.no_aux_rand })
    }

    /// Turns the key into one that signs without auxiliary random data.
    /// This is meant for tests only.
    ///
    /// Without auxiliary data a signature is a function of the key and the
    /// message alone, which serves to reproduce fixed test vectors and
    /// weakens the defence against side channels and fault injection. The
    /// choice is made by consuming the key, and cannot be undone.
    pub fn no_aux_rand(self) -> (key: PrivateKey)
        ensures
            key@ == (KeyModel { scalar: self@.scalar, deterministic: true }),
    {
        proof {
            use_type_invariant(&self);
        }
        PrivateKey { secret: self.secret, no_aux_rand: true }
    }

    /// Signs the 32-byte digest `message`. A message of any other length is
    /// refused with `InvalidMessage`; nothing is hashed here.
    ///
    /// A deterministic key derives its nonce from the key and the message
    /// alone; any other key mixes in 32 fresh random bytes. The key is left
    /// as it was.
    pub fn sign(&self, message: &[u8]) -> (result: KeyPairResult<Signature>)
        ensures
            is_signing_outcome(self@, message@, signature_bytes(result)),
            result is Ok <==> message@.len() == 32,
            result matches Err(e) ==> e == KeyPairError::InvalidMessage,
    {
        if self.no_aux_rand {
            self.sign_without_aux_rand(message)
        } else {
            let aux_rand = fresh_aux_rand();
            self.sign_with_aux_rand(message, &aux_rand)
        }
    }

    /// Signs the 32-byte digest `message` with the auxiliary bytes
    /// `aux_rand`, whatever the signing mode of the key. A message of any
    /// other length is refused with `InvalidMessage`.
    pub fn sign_with_aux_rand(&self, message: &[u8], aux_rand: &[u8; 32]) -> (result:
        KeyPairResult<Signature>)
        ensures
            signature_bytes(result) == signed_with_aux_rand(self@, message@, aux_rand@),
    {
        let digest: [u8; DIGEST_SIZE] = match array_from_slice(message) {
            Some(digest) => digest,
            None => {
                return Err(KeyPairError::InvalidMessage);
            },
        };
        proof {
            use_type_invariant(self);
        }
        let signature = sign_schnorr_with_aux_rand(self.secret.as_array(), &digest, aux_rand);
        Signature::from_bytes(signature.as_slice())
    }

    /// Signs the 32-byte digest `message` without auxiliary bytes, whatever
    /// the signing mode of the key. A message of any other length is refused
    /// with `InvalidMessage`.
    pub fn sign_without_aux_rand(&self, message: &[u8]) -> (result: KeyPairResult<Signature>)
        ensures
            signature_bytes(result) == signed_without_aux_rand(self@, message@),
    {
        let digest: [u8; DIGEST_SIZE] = match array_from_slice(message) {
            Some(digest) => digest,
            None => {
                return Err(KeyPairError::InvalidMessage);
            },
        };
        proof {
            use_type_invariant(self);
        }
        let signature = sign_schnorr_no_aux_rand(self.secret.as_array(), &digest);
        Signature::from_bytes(signature.as_slice())
    }

    /// The secret scalar as 32 bytes, most significant first, in a buffer of
    /// its own that is zero-filled when it is released.
    pub fn to_zeroizing_vec(&self) -> (bytes: SecretBytes)
        ensures
            bytes@ == exported(self@),
    {
        proof {
            use_type_invariant(self);
            lemma_be_bytes_of_be_nat(self.secret@);
        }
        SecretBytes::new(*self.secret.as_array())
    }
}

impl<'a> TryFrom<&'a str> for PrivateKey {
    type Error = KeyPairError;

    /// The key that the hexadecimal text `s` spells.
    fn try_from(s: &'a str) -> (result: Result<Self, Self::Error>)
        ensures
            model_of(result) == key_from_hex(s.spec_bytes()),
    {
        match decode(s.as_bytes()) {
            Some(bytes) => PrivateKey::try_from(bytes.as_slice()),
            None => Err(KeyPairError::InvalidHex),
        }
    }
}

impl<'a> TryFromSpecImpl<&'a str> for PrivateKey {
    open spec fn obeys_try_from_spec() -> bool {
        true
    }

    open spec fn try_from_spec(s: &'a str) -> Result<Self, Self::Error> {
        key_result(key_from_hex(s.spec_bytes()))
    }
}

impl<'a> TryFrom<&'a [u8]> for PrivateKey {
    type Error = KeyPairError;

    /// The key of the secret scalar that `value` spells.
    fn try_from(value: &'a [u8]) -> (result: Result<Self, Self::Error>)
        ensures
            model_of(result) == key_from_bytes(value@),
    {
        match keypair_from_seckey_slice(value) {
            Ok(secret) => {
                let key = PrivateKey { secret: SecretBytes::new(secret), no_aux_rand: false };
                proof {
                    key.lemma_key_of_view();
                }
                Ok(key)
            },
            Err(_) => Err(KeyPairError::InvalidSecretKey),
        }
    }
}

impl<'a> TryFromSpecImpl<&'a [u8]> for PrivateKey {
    open spec fn obeys_try_from_spec() -> bool {
        true
    }

    open spec fn try_from_spec(value: &'a [u8]) -> Result<Self, Self::Error> {
        key_result(key_from_bytes(value@))
    }
}

} // verus!
