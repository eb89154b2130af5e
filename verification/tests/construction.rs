use tw_keypair::error::KeyPairError;
use tw_keypair::hex::decode;
use tw_keypair::schnorr::private::PrivateKey;

const CURVE_ORDER: &str = "fffffffffffffffffffffffffffffffebaaedce6af48a03bbfd25e8cd0364141";
const CURVE_ORDER_MINUS_ONE: &str =
    "fffffffffffffffffffffffffffffffebaaedce6af48a03bbfd25e8cd0364140";
const CURVE_ORDER_PLUS_ONE: &str =
    "fffffffffffffffffffffffffffffffebaaedce6af48a03bbfd25e8cd0364142";

fn bytes(hex: &str) -> Vec<u8> {
    decode(hex.as_bytes()).expect("hexadecimal text")
}

fn small(value: u8) -> [u8; 32] {
    let mut secret = [0u8; 32];
    secret[31] = value;
    secret
}

#[test]
fn construct_then_export_returns_the_same_bytes() {
    let secrets = [
        bytes("0000000000000000000000000000000000000000000000000000000000000001"),
        bytes("0000000000000000000000000000000000000000000000000000000000000003"),
        bytes("b7e151628aed2a6abf7158809cf4f3c762e7160f38b4da56a784d9045190cfef"),
        bytes("0100000000000000000000000000000000000000000000000000000000000000"),
        bytes(CURVE_ORDER_MINUS_ONE),
    ];
    for secret in secrets.iter() {
        let key = PrivateKey::try_from(secret.as_slice()).expect("a scalar in [1, n - 1]");
        assert_eq!(key.to_zeroizing_vec().as_slice(), secret.as_slice());
    }
}

#[test]
fn smallest_and_largest_scalars_are_accepted() {
    assert!(PrivateKey::try_from(&small(1)[..]).is_ok());
    assert!(PrivateKey::try_from(bytes(CURVE_ORDER_MINUS_ONE).as_slice()).is_ok());
}

#[test]
fn zero_is_refused() {
    assert!(matches!(PrivateKey::try_from(&[0u8; 32][..]), Err(KeyPairError::InvalidSecretKey)));
}

#[test]
fn curve_order_is_refused() {
    assert!(matches!(
        PrivateKey::try_from(bytes(CURVE_ORDER).as_slice()),
        Err(KeyPairError::InvalidSecretKey)
    ));
}

#[test]
fn values_above_the_curve_order_are_refused() {
    assert!(matches!(
        PrivateKey::try_from(bytes(CURVE_ORDER_PLUS_ONE).as_slice()),
        Err(KeyPairError::InvalidSecretKey)
    ));
    assert!(matches!(
        PrivateKey::try_from(&[0xffu8; 32][..]),
        Err(KeyPairError::InvalidSecretKey)
    ));
}

#[test]
fn other_lengths_are_refused() {
    assert!(matches!(PrivateKey::try_from(&[][..]), Err(KeyPairError::InvalidSecretKey)));
    assert!(matches!(PrivateKey::try_from(&[1u8; 31][..]), Err(KeyPairError::InvalidSecretKey)));
    assert!(matches!(PrivateKey::try_from(&[1u8; 33][..]), Err(KeyPairError::InvalidSecretKey)));
    assert!(matches!(PrivateKey::try_from(&[1u8; 64][..]), Err(KeyPairError::InvalidSecretKey)));
}

#[test]
fn hex_text_constructs_the_key_of_its_bytes() {
    let text = "b7e151628aed2a6abf7158809cf4f3c762e7160f38b4da56a784d9045190cfef";
    let key = PrivateKey::try_from(text).expect("a scalar in [1, n - 1]");
    assert_eq!(
        key.to_zeroizing_vec().as_array(),
        &[
            0xb7, 0xe1, 0x51, 0x62, 0x8a, 0xed, 0x2a, 0x6a, 0xbf, 0x71, 0x58, 0x80, 0x9c, 0xf4,
            0xf3, 0xc7, 0x62, 0xe7, 0x16, 0x0f, 0x38, 0xb4, 0xda, 0x56, 0xa7, 0x84, 0xd9, 0x04,
            0x51, 0x90, 0xcf, 0xef,
        ]
    );
}

#[test]
fn hex_text_in_upper_case_is_accepted() {
    let lower = PrivateKey::try_from(
        "b7e151628aed2a6abf7158809cf4f3c762e7160f38b4da56a784d9045190cfef",
    )
    .expect("a scalar in [1, n - 1]");
    let upper = PrivateKey::try_from(
        "B7E151628AED2A6ABF7158809CF4F3C762E7160F38B4DA56A784D9045190CFEF",
    )
    .expect("a scalar in [1, n - 1]");
    assert_eq!(lower.to_zeroizing_vec().as_array(), upper.to_zeroizing_vec().as_array());
}

#[test]
fn text_that_is_not_hex_has_an_error_of_its_own() {
    // An odd number of digits.
    assert!(matches!(
        PrivateKey::try_from("b7e151628aed2a6abf7158809cf4f3c762e7160f38b4da56a784d9045190cfe"),
        Err(KeyPairError::InvalidHex)
    ));
    // A letter past `f`.
    assert!(matches!(
        PrivateKey::try_from("g7e151628aed2a6abf7158809cf4f3c762e7160f38b4da56a784d9045190cfef"),
        Err(KeyPairError::InvalidHex)
    ));
    // A prefix is no digit.
    assert!(matches!(
        PrivateKey::try_from(
            "0xb7e151628aed2a6abf7158809cf4f3c762e7160f38b4da56a784d9045190cfef"
        ),
        Err(KeyPairError::InvalidHex)
    ));
    // Characters outside ASCII.
    assert!(matches!(PrivateKey::try_from("é"), Err(KeyPairError::InvalidHex)));
}

#[test]
fn hex_text_of_an_invalid_secret_is_refused_as_a_secret() {
    assert!(matches!(PrivateKey::try_from(""), Err(KeyPairError::InvalidSecretKey)));
    assert!(matches!(
        PrivateKey::try_from("b7e151628aed2a6abf7158809cf4f3c762e7160f38b4da56a784d9045190cf"),
        Err(KeyPairError::InvalidSecretKey)
    ));
    assert!(matches!(
        PrivateKey::try_from("0000000000000000000000000000000000000000000000000000000000000000"),
        Err(KeyPairError::InvalidSecretKey)
    ));
    assert!(matches!(PrivateKey::try_from(CURVE_ORDER), Err(KeyPairError::InvalidSecretKey)));
}

#[test]
fn no_aux_rand_keeps_the_scalar() {
    let key = PrivateKey::try_from(&small(3)[..]).expect("a scalar in [1, n - 1]").no_aux_rand();
    assert_eq!(key.to_zeroizing_vec().as_array(), &small(3));
}

#[test]
fn public_key_of_three_is_the_published_one() {
    let key = PrivateKey::try_from(&small(3)[..]).expect("a scalar in [1, n - 1]");
    let public = key.public();
    assert_eq!(
        public.x_only().as_slice(),
        bytes("f9308a019258c31049344f85f89d5229b531c845836f99b08601f113bce036f9").as_slice()
    );
    assert!(public.has_even_y());
}

#[test]
fn public_key_reports_an_odd_y_coordinate() {
    let key = PrivateKey::try_from(&small(6)[..]).expect("a scalar in [1, n - 1]");
    let public = key.public();
    assert_eq!(
        public.x_only().as_slice(),
        bytes("fff97bd5755eeea420453a14355235d382f6472f8568a18b2f057a1460297556").as_slice()
    );
    assert!(!public.has_even_y());
}

#[test]
fn public_key_is_computed_anew_and_the_same() {
    let key = PrivateKey::try_from(&small(9)[..]).expect("a scalar in [1, n - 1]");
    assert_eq!(key.public(), key.public());
}
