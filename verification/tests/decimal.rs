use spotify_banger::decimal::parse_u64;

#[test]
fn plain_numbers() {
    assert_eq!(parse_u64("3600"), Some(3600));
    assert_eq!(parse_u64("0"), Some(0));
    assert_eq!(parse_u64("007"), Some(7));
    assert_eq!(parse_u64("+5"), Some(5));
}

#[test]
fn limits_of_64_bits() {
    assert_eq!(parse_u64("18446744073709551615"), Some(u64::MAX));
    assert_eq!(parse_u64("18446744073709551616"), None);
    assert_eq!(parse_u64("99999999999999999999"), None);
    assert_eq!(parse_u64("000018446744073709551615"), Some(u64::MAX));
    assert_eq!(parse_u64("184467440737095516150"), None);
}

#[test]
fn not_numbers() {
    assert_eq!(parse_u64(""), None);
    assert_eq!(parse_u64("+"), None);
    assert_eq!(parse_u64("-1"), None);
    assert_eq!(parse_u64("12a"), None);
    assert_eq!(parse_u64(" 12"), None);
    assert_eq!(parse_u64("1_000"), None);
    assert_eq!(parse_u64("++1"), None);
    assert_eq!(parse_u64("1+"), None);
    assert_eq!(parse_u64("\u{0663}"), None);
    assert_eq!(parse_u64("12\u{00e9}"), None);
}

#[test]
fn agrees_with_std() {
    for text in ["0", "1", "+1", "42", "3600", "", "+", "x", "18446744073709551615", "18446744073709551616"] {
        assert_eq!(parse_u64(text), text.parse::<u64>().ok());
    }
}
