use solana_service::codec::{
    address_to_base58, decode_base58, decode_base64, encode_base58, encode_base64, parse_address,
};

#[test]
fn address_roundtrip_all_byte_values() {
    let bytes: Vec<u8> = (0u8..32u8).collect();
    let s = address_to_base58(&bytes);
    let back = parse_address(&s).expect("canonical encoding must parse");
    assert_eq!(back, bytes);
}

#[test]
fn address_roundtrip_zero_bytes() {
    let bytes = vec![0u8; 32];
    let s = address_to_base58(&bytes);
    assert_eq!(s, "11111111111111111111111111111111");
    let back = parse_address(&s).expect("canonical encoding must parse");
    assert_eq!(back, bytes);
}

#[test]
fn base58_encode_is_not_identity() {
    let s = encode_base58(&[255u8; 4]);
    assert_eq!(s, "7YXq9G");
}

#[test]
fn base58_rejects_characters_outside_alphabet() {
    assert!(decode_base58("I").is_none());
    assert!(decode_base58("O").is_none());
    assert!(decode_base58("l").is_none());
    assert!(decode_base58("0").is_none());
    assert!(decode_base58("abc!").is_none());
}

#[test]
fn base64_encode_exact_value() {
    let s = encode_base64(b"hello");
    assert_eq!(s, "aGVsbG8=");
    assert_eq!(decode_base64("aGVsbG8=").unwrap(), b"hello".to_vec());
}

#[test]
fn base64_rejects_malformed_input() {
    assert!(decode_base64("not base64 at all!").is_none());
}

#[test]
fn parse_address_rejects_wrong_length() {
    // Valid base58, but it decodes to fewer than 32 bytes.
    let short = encode_base58(&[7u8; 10]);
    assert!(parse_address(&short).is_none());
    // Valid base58, but it decodes to more than 32 bytes.
    let long = encode_base58(&[7u8; 40]);
    assert!(parse_address(&long).is_none());
}
