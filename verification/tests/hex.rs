use tw_keypair::bytes::{append, array_from_slice};
use tw_keypair::hex::{decode, digit};

#[test]
fn digits_have_their_values() {
    assert_eq!(digit(b'0'), Some(0));
    assert_eq!(digit(b'9'), Some(9));
    assert_eq!(digit(b'a'), Some(10));
    assert_eq!(digit(b'f'), Some(15));
    assert_eq!(digit(b'A'), Some(10));
    assert_eq!(digit(b'F'), Some(15));
}

#[test]
fn neighbours_of_digits_have_none() {
    assert_eq!(digit(b'/'), None);
    assert_eq!(digit(b':'), None);
    assert_eq!(digit(b'`'), None);
    assert_eq!(digit(b'g'), None);
    assert_eq!(digit(b'@'), None);
    assert_eq!(digit(b'G'), None);
    assert_eq!(digit(b' '), None);
    assert_eq!(digit(0), None);
    assert_eq!(digit(0xff), None);
}

#[test]
fn decode_pairs_digits_high_first() {
    assert_eq!(decode(b"00"), Some(vec![0x00]));
    assert_eq!(decode(b"0f10"), Some(vec![0x0f, 0x10]));
    assert_eq!(decode(b"deadBEEF"), Some(vec![0xde, 0xad, 0xbe, 0xef]));
    assert_eq!(decode(b"ff"), Some(vec![0xff]));
}

#[test]
fn decode_of_nothing_is_nothing_decoded() {
    assert_eq!(decode(b""), Some(vec![]));
}

#[test]
fn decode_refuses_odd_length() {
    assert_eq!(decode(b"0"), None);
    assert_eq!(decode(b"abc"), None);
}

#[test]
fn decode_refuses_other_bytes() {
    assert_eq!(decode(b"0x"), None);
    assert_eq!(decode(b"x0"), None);
    assert_eq!(decode(b"12 4"), None);
    assert_eq!(decode(b"0011zz"), None);
}

#[test]
fn array_from_slice_copies_in_order() {
    let array: Option<[u8; 4]> = array_from_slice(&[1u8, 2, 3, 4]);
    assert_eq!(array, Some([1, 2, 3, 4]));
    let empty: Option<[u8; 0]> = array_from_slice(&[]);
    assert_eq!(empty, Some([]));
}

#[test]
fn array_from_slice_refuses_other_lengths() {
    let short: Option<[u8; 4]> = array_from_slice(&[1u8, 2, 3]);
    assert_eq!(short, None);
    let long: Option<[u8; 4]> = array_from_slice(&[1u8, 2, 3, 4, 5]);
    assert_eq!(long, None);
    let empty: Option<[u8; 1]> = array_from_slice(&[]);
    assert_eq!(empty, None);
}

#[test]
fn append_extends_at_the_end() {
    let mut buffer = vec![1u8, 2];
    append(&mut buffer, &[3, 4, 5]);
    assert_eq!(buffer, vec![1, 2, 3, 4, 5]);
    append(&mut buffer, &[]);
    assert_eq!(buffer, vec![1, 2, 3, 4, 5]);
}
