use doip2http::hex::{
    hex_digit_value, hex_text, parse_hex, parse_hex_address, parse_hex_string_to_bytes,
    starts_with_hex_prefix, HexError,
};

#[test]
fn parse_hex_examples() {
    assert_eq!(parse_hex("0x1a2b"), Ok(vec![0x1a, 0x2b]));
    assert_eq!(parse_hex("0x1a2"), Err(HexError::OddLength));
    assert_eq!(parse_hex("1a2b"), Err(HexError::MissingPrefix));
    assert_eq!(parse_hex("0x"), Err(HexError::Empty));
    assert_eq!(parse_hex("0xzz"), Err(HexError::InvalidDigit));
    assert_eq!(parse_hex("0xFFa0"), Ok(vec![0xFF, 0xA0]));
    assert_eq!(parse_hex(""), Err(HexError::MissingPrefix));
    assert_eq!(parse_hex("0X12"), Err(HexError::MissingPrefix));
}

#[test]
fn parse_hex_string_to_bytes_messages() {
    assert_eq!(parse_hex_string_to_bytes("0x1003"), Ok(vec![0x10, 0x03]));
    assert_eq!(
        parse_hex_string_to_bytes("1a2b"),
        Err("Hex string must start with '0x'".to_string())
    );
    assert_eq!(
        parse_hex_string_to_bytes("0x"),
        Err("Hex string after '0x' is empty".to_string())
    );
    assert_eq!(
        parse_hex_string_to_bytes("0x123"),
        Err("Hex string must have an even number of digits".to_string())
    );
    assert!(parse_hex_string_to_bytes("0x1g").is_err());
}

#[test]
fn parse_address_examples() {
    assert_eq!(parse_hex_address("0x0E80"), Some(0x0E80));
    assert_eq!(parse_hex_address("0xffff"), Some(0xFFFF));
    assert_eq!(parse_hex_address("0x1"), Some(1));
    assert_eq!(parse_hex_address("0x000001"), Some(1));
    assert_eq!(parse_hex_address("0x10000"), None);
    assert_eq!(parse_hex_address("0x"), None);
    assert_eq!(parse_hex_address("0E80"), None);
    assert_eq!(parse_hex_address("0x0E8G"), None);
}

#[test]
fn hex_text_renders_upper_case() {
    assert_eq!(hex_text(&[0x50, 0x03, 0x00, 0x32, 0x01, 0xF4]), "0x5003003201F4");
    assert_eq!(hex_text(&[]), "0x");
}

#[test]
fn hex_text_parses_back() {
    let bytes = vec![0x00u8, 0x7F, 0x80, 0xFF, 0xab];
    assert_eq!(parse_hex(&hex_text(&bytes)), Ok(bytes));
}

#[test]
fn digits_and_prefix() {
    assert_eq!(hex_digit_value('a'), Some(10));
    assert_eq!(hex_digit_value('F'), Some(15));
    assert_eq!(hex_digit_value('7'), Some(7));
    assert_eq!(hex_digit_value('g'), None);
    assert!(starts_with_hex_prefix("0x"));
    assert!(!starts_with_hex_prefix("x0"));
}
