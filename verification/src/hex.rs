//! Hexadecimal text, as bytes of ASCII, to the bytes it spells.

use vstd::prelude::*;

verus! {

/// The value of one hexadecimal digit, in either case; `None` for any other
/// byte.
pub open spec fn digit_value(digit: u8) -> Option<u8> {
    if 0x30 <= digit <= 0x39 {
        Some((digit - 0x30) as u8)
    } else if 0x61 <= digit <= 0x66 {
        Some((digit - 0x61 + 10) as u8)
    } else if 0x41 <= digit <= 0x46 {
        Some((digit - 0x41 + 10) as u8)
    } else {
        None
    }
}

/// Text that decodes: an even number of hexadecimal digits.
pub open spec fn is_hex(text: Seq<u8>) -> bool {
    &&& text.len() % 2 == 0
    &&& forall|i: int| 0 <= i < text.len() ==> (#[trigger] digit_value(text[i])) is Some
}

/// The byte that the digit pair `high`, `low` spells.
pub open spec fn pair_value(high: u8, low: u8) -> u8 {
    (16 * digit_value(high).unwrap() + digit_value(low).unwrap()) as u8
}

/// The bytes that hexadecimal text spells, two digits to the byte.
pub open spec fn decoded(text: Seq<u8>) -> Seq<u8> {
    Seq::new(text.len() / 2, |i: int| pair_value(text[2 * i], text[2 * i + 1]))
}

/// What decoding `text` yields: its bytes where it is hexadecimal, nothing
/// where it is not.
pub open spec fn decode_spec(text: Seq<u8>) -> Option<Seq<u8>> {
    if is_hex(text) {
        Some(decoded(text))
    } else {
        None
    }
}

/// The value of one digit.
pub fn digit(byte: u8) -> (value: Option<u8>)
    ensures
        value == digit_value(byte),
        value matches Some(v) ==> v < 16,
{
    if 0x30 <= byte && byte <= 0x39 {
        Some(byte - 0x30)
    } else if 0x61 <= byte && byte <= 0x66 {
        Some(byte - 0x61 + 10)
    } else if 0x41 <= byte && byte <= 0x46 {
        Some(byte - 0x41 + 10)
    } else {
        None
    }
}

/// Decodes hexadecimal text. Text of odd length, and text with a byte that
/// is no hexadecimal digit, decodes to nothing.
pub fn decode(text: &[u8]) -> (bytes: Option<Vec<u8>>)
    ensures
        match bytes {
            Some(bytes) => decode_spec(text@) == Some(bytes@),
            None => decode_spec(text@) is None,
        },
{
    let len = text.len();
    if len % 2 != 0 {
        return None;
    }
    let mut bytes: Vec<u8> = Vec::new();
    let mut i: usize = 0;
    while i < len / 2
        invariant
            len == text@.len(),
            len % 2 == 0,
            i <= len / 2,
            bytes@.len() == i,
            forall|j: int| 0 <= j < 2 * i ==> (#[trigger] digit_value(text@[j])) is Some,
            forall|j: int| 0 <= j < i ==> bytes@[j] == pair_value(text@[2 * j], text@[2 * j + 1]),
        decreases len / 2 - i,
    {
        let high = match digit(text[2 * i]) {
            Some(value) => value,
            None => {
                return None;
            },
        };
        let low = match digit(text[2 * i + 1]) {
            Some(value) => value,
            None => {
                return None;
            },
        };
        bytes.push(16 * high + low);
        i = i + 1;
    }
    assert(bytes@ =~= decoded(text@));
    Some(bytes)
}

} // verus!
