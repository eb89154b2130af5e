//! Secret scalars as natural numbers, and their 32-byte big-endian spelling.

use vstd::prelude::*;

verus! {

/// The order `n` of the secp256k1 group.
pub open spec fn curve_order() -> nat {
    0xFFFFFFFF_FFFFFFFF_FFFFFFFF_FFFFFFFE_BAAEDCE6_AF48A03B_BFD25E8C_D0364141nat
}

/// The number that `bytes` spells in base 256, most significant byte first.
pub open spec fn be_nat(bytes: Seq<u8>) -> nat
    decreases bytes.len(),
{
    if bytes.len() == 0 {
        0
    } else {
        be_nat(bytes.drop_last()) * 256 + bytes.last() as nat
    }
}

/// The `len` bytes that spell `value` in base 256, most significant byte
/// first; digits above the `len`-th are cut off.
pub open spec fn be_bytes(value: nat, len: nat) -> Seq<u8>
    decreases len,
{
    if len == 0 {
        Seq::empty()
    } else {
        be_bytes(value / 256, (len - 1) as nat).push((value % 256) as u8)
    }
}

/// The number of values that `len` bytes can spell: 256 to the power `len`.
pub open spec fn be_bound(len: nat) -> nat
    decreases len,
{
    if len == 0 {
        1
    } else {
        256 * be_bound((len - 1) as nat)
    }
}

/// A scalar that may serve as a secret key: a nonzero element of the
/// scalar field.
pub open spec fn is_valid_scalar(value: nat) -> bool {
    1 <= value < curve_order()
}

/// Bytes that may serve as a secret key: exactly 32 of them, spelling a
/// valid scalar.
pub open spec fn is_valid_secret(bytes: Seq<u8>) -> bool {
    bytes.len() == 32 && is_valid_scalar(be_nat(bytes))
}

/// `be_bytes` yields exactly as many bytes as asked for.
pub proof fn lemma_be_bytes_len(value: nat, len: nat)
    ensures
        be_bytes(value, len).len() == len,
    decreases len,
{
    if len > 0 {
        lemma_be_bytes_len(value / 256, (len - 1) as nat);
    }
}

/// Spelling the value of a byte string over the same length gives the
/// string back.
pub proof fn lemma_be_bytes_of_be_nat(bytes: Seq<u8>)
    ensures
        be_bytes(be_nat(bytes), bytes.len()) == bytes,
    decreases bytes.len(),
{
    if bytes.len() > 0 {
        let front = bytes.drop_last();
        let value = be_nat(bytes);
        assert(value == be_nat(front) * 256 + bytes.last() as nat);
        assert(value / 256 == be_nat(front));
        assert(value % 256 == bytes.last() as nat);
        lemma_be_bytes_of_be_nat(front);
        assert(front.push(bytes.last()) =~= bytes);
    }
}

/// A value below the bound of `len` is the value of its `len`-byte spelling.
pub proof fn lemma_be_nat_of_be_bytes(value: nat, len: nat)
    requires
        value < be_bound(len),
    ensures
        be_nat(be_bytes(value, len)) == value,
    decreases len,
{
    if len > 0 {
        let front = be_bytes(value / 256, (len - 1) as nat);
        lemma_be_nat_of_be_bytes(value / 256, (len - 1) as nat);
        assert(be_bytes(value, len).drop_last() =~= front);
    }
}

/// Two byte strings of one length that spell the same value are equal.
pub proof fn lemma_be_nat_injective(a: Seq<u8>, b: Seq<u8>)
    requires
        a.len() == b.len(),
        be_nat(a) == be_nat(b),
    ensures
        a == b,
{
    lemma_be_bytes_of_be_nat(a);
    lemma_be_bytes_of_be_nat(b);
}

/// Every scalar below the group order fits in 32 bytes.
pub proof fn lemma_curve_order_fits()
    ensures
        curve_order() < be_bound(32),
{
    reveal_with_fuel(be_bound, 33);
}

} // verus!
