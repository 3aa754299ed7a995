use glgen::hexlit::hex_literal_string;
use glgen::hexlit::parse_hex_literal;

#[test]
fn renders_zero() {
    assert_eq!(hex_literal_string(0), "0x0");
}

#[test]
fn renders_single_digit() {
    assert_eq!(hex_literal_string(1), "0x1");
    assert_eq!(hex_literal_string(10), "0xa");
    assert_eq!(hex_literal_string(15), "0xf");
}

#[test]
fn renders_multi_digit() {
    assert_eq!(hex_literal_string(0x4000), "0x4000");
    assert_eq!(hex_literal_string(0x1a2b), "0x1a2b");
    assert_eq!(hex_literal_string(u64::MAX), "0xffffffffffffffff");
}

#[test]
fn parses_rendered_literals() {
    for v in [0u64, 1, 15, 16, 255, 0x4000, 0x1a2b, 0xdead_beef, u64::MAX] {
        let text = hex_literal_string(v);
        assert_eq!(parse_hex_literal(text.as_str()), Some(v));
    }
}

#[test]
fn parses_literal_with_leading_zeros() {
    assert_eq!(parse_hex_literal("0x00ff"), Some(255));
}

#[test]
fn rejects_text_that_is_no_literal() {
    assert_eq!(parse_hex_literal(""), None);
    assert_eq!(parse_hex_literal("0x"), None);
    assert_eq!(parse_hex_literal("1234"), None);
    assert_eq!(parse_hex_literal("0xg1"), None);
    assert_eq!(parse_hex_literal("0x12 "), None);
    assert_eq!(parse_hex_literal("x123"), None);
}

#[test]
fn rejects_uppercase_digits() {
    assert_eq!(parse_hex_literal("0xFF"), None);
}

#[test]
fn rejects_value_too_large() {
    assert_eq!(parse_hex_literal("0x10000000000000000"), None);
    assert_eq!(parse_hex_literal("0xffffffffffffffff"), Some(u64::MAX));
}
