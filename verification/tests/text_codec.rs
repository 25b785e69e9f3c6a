use dgram_proxy::text::parse_u16;
use dgram_proxy::text::u16_to_decimal;

#[test]
fn decimal_rendering_exact_values() {
    assert_eq!(u16_to_decimal(0), "0");
    assert_eq!(u16_to_decimal(7), "7");
    assert_eq!(u16_to_decimal(10), "10");
    assert_eq!(u16_to_decimal(443), "443");
    assert_eq!(u16_to_decimal(9999), "9999");
    assert_eq!(u16_to_decimal(65535), "65535");
}

#[test]
fn parse_accepts_plain_and_plus_signed_decimals() {
    assert_eq!(parse_u16("0"), Some(0));
    assert_eq!(parse_u16("80"), Some(80));
    assert_eq!(parse_u16("+80"), Some(80));
    assert_eq!(parse_u16("65535"), Some(65535));
    assert_eq!(parse_u16("007"), Some(7));
}

#[test]
fn parse_rejects_malformed_input() {
    assert_eq!(parse_u16(""), None);
    assert_eq!(parse_u16("+"), None);
    assert_eq!(parse_u16("-1"), None);
    assert_eq!(parse_u16("abc"), None);
    assert_eq!(parse_u16("80a"), None);
    assert_eq!(parse_u16(" 80"), None);
    assert_eq!(parse_u16("８０"), None);
}

#[test]
fn parse_rejects_out_of_range_values() {
    assert_eq!(parse_u16("65536"), None);
    assert_eq!(parse_u16("99999"), None);
    assert_eq!(parse_u16("18446744073709551616"), None);
}

#[test]
fn rendering_then_parsing_is_identity() {
    for n in [0u16, 1, 9, 10, 99, 100, 4433, 65535] {
        assert_eq!(parse_u16(&u16_to_decimal(n)), Some(n));
    }
}
