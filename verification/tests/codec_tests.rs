use poseidon_sponge::codec::hex_to_field;
use poseidon_sponge::field::Fr;
use poseidon_sponge::ConfigError;

#[test]
fn single_byte_decodes() {
    let v = hex_to_field("0x01").unwrap();
    assert!(v.equals(&Fr::from_u64(1)));
    let v = hex_to_field("0xff").unwrap();
    assert!(v.equals(&Fr::from_u64(255)));
}

#[test]
fn uppercase_digits_decode() {
    let v = hex_to_field("0xFF").unwrap();
    assert!(v.equals(&Fr::from_u64(255)));
    let v = hex_to_field("0xAb").unwrap();
    assert!(v.equals(&Fr::from_u64(171)));
}

#[test]
fn bytes_are_read_big_endian() {
    // "0100" is the big-endian bytes [1, 0]: the value 256, not 1
    let v = hex_to_field("0x0100").unwrap();
    assert!(v.equals(&Fr::from_u64(256)));
    let v = hex_to_field("0x0a00").unwrap();
    assert!(v.equals(&Fr::from_u64(2560)));
}

#[test]
fn empty_digits_decode_to_zero() {
    let v = hex_to_field("0x").unwrap();
    assert!(v.equals(&Fr::from_u64(0)));
}

#[test]
fn prefix_is_stripped_not_checked() {
    // any two leading characters are dropped before decoding
    let v = hex_to_field("zz01").unwrap();
    assert!(v.equals(&Fr::from_u64(1)));
}

#[test]
fn short_literal_is_rejected() {
    assert!(matches!(hex_to_field(""), Err(ConfigError::InvalidHex)));
    assert!(matches!(hex_to_field("0"), Err(ConfigError::InvalidHex)));
}

#[test]
fn odd_digit_count_is_rejected() {
    assert!(matches!(hex_to_field("0x123"), Err(ConfigError::InvalidHex)));
}

#[test]
fn bad_digit_is_rejected() {
    assert!(matches!(hex_to_field("0xzz"), Err(ConfigError::InvalidHex)));
    assert!(matches!(hex_to_field("0x0g"), Err(ConfigError::InvalidHex)));
}

#[test]
fn overlong_literal_is_rejected() {
    // 64 bytes of digits fill the 512-bit buffer exactly; 65 do not fit
    let ok = format!("0x{}", "00".repeat(64));
    assert!(hex_to_field(&ok).is_ok());
    let too_long = format!("0x{}", "00".repeat(65));
    assert!(matches!(hex_to_field(&too_long), Err(ConfigError::InvalidHex)));
}

#[test]
fn le_bytes_round_trip() {
    let v = Fr::from_u64(256);
    let bytes = v.to_le_bytes();
    // canonical little-endian encoding: low byte first
    assert_eq!(bytes[0], 0);
    assert_eq!(bytes[1], 1);
    let back = Fr::from_le_bytes(&bytes);
    assert!(back.equals(&v));
}
