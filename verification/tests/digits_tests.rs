use live_metrics::digits::{parse_u64_dec, u128_to_hex, u64_to_dec};

#[test]
fn decimal_rendering() {
    assert_eq!(u64_to_dec(0), "0");
    assert_eq!(u64_to_dec(7), "7");
    assert_eq!(u64_to_dec(10), "10");
    assert_eq!(u64_to_dec(1_234_567_890), "1234567890");
    assert_eq!(u64_to_dec(u64::MAX), "18446744073709551615");
}

#[test]
fn hex_rendering_pads_to_width() {
    assert_eq!(u128_to_hex(0, 32), "00000000000000000000000000000000");
    assert_eq!(u128_to_hex(0xabc, 8), "00000abc");
    assert_eq!(u128_to_hex(0xDEAD_BEEF, 8), "deadbeef");
    assert_eq!(u128_to_hex(u128::MAX, 32), "f".repeat(32));
    assert_eq!(u128_to_hex(0x1234, 0), "");
}

#[test]
fn decimal_parsing_accepts_plain_digit_strings() {
    assert_eq!(parse_u64_dec("0"), Some(0));
    assert_eq!(parse_u64_dec("10000"), Some(10_000));
    assert_eq!(parse_u64_dec("007"), Some(7));
    assert_eq!(parse_u64_dec("18446744073709551615"), Some(u64::MAX));
}

#[test]
fn decimal_parsing_rejects_everything_else() {
    assert_eq!(parse_u64_dec(""), None);
    assert_eq!(parse_u64_dec("+5"), None);
    assert_eq!(parse_u64_dec("-5"), None);
    assert_eq!(parse_u64_dec(" 5"), None);
    assert_eq!(parse_u64_dec("5s"), None);
    assert_eq!(parse_u64_dec("1.5"), None);
    // One past the largest representable value.
    assert_eq!(parse_u64_dec("18446744073709551616"), None);
    assert_eq!(parse_u64_dec("99999999999999999999999"), None);
}
