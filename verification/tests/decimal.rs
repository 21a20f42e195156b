use jot::decimal::{parse_u32, u64_to_decimal};

#[test]
fn decimal_writes_numbers() {
    assert_eq!(u64_to_decimal(0), "0");
    assert_eq!(u64_to_decimal(7), "7");
    assert_eq!(u64_to_decimal(10), "10");
    assert_eq!(u64_to_decimal(1234567890), "1234567890");
    assert_eq!(u64_to_decimal(u64::MAX), "18446744073709551615");
}

#[test]
fn decimal_matches_to_string() {
    for n in [0u64, 1, 9, 10, 99, 100, 4294967295, 4294967296, 987654321012345] {
        assert_eq!(u64_to_decimal(n), n.to_string());
    }
}

#[test]
fn parse_accepts_digits_and_plus() {
    assert_eq!(parse_u32("0"), Some(0));
    assert_eq!(parse_u32("42"), Some(42));
    assert_eq!(parse_u32("+42"), Some(42));
    assert_eq!(parse_u32("0042"), Some(42));
    assert_eq!(parse_u32("4294967295"), Some(u32::MAX));
}

#[test]
fn parse_rejects_like_std() {
    for s in ["", "+", "-", "-1", "4294967296", "99999999999", "1a", " 1", "1 ", "++1", "١"] {
        assert_eq!(parse_u32(s), None, "{:?}", s);
        assert_eq!(parse_u32(s), s.parse::<u32>().ok(), "{:?}", s);
    }
}

#[test]
fn parse_agrees_with_std_on_samples() {
    for s in ["0", "+0", "00", "123", "+4294967295", "4294967295", "4294967300"] {
        assert_eq!(parse_u32(s), s.parse::<u32>().ok(), "{:?}", s);
    }
}

#[test]
fn decimal_roundtrip() {
    for n in [0u64, 5, 12, 65535, 4294967295] {
        assert_eq!(parse_u32(&u64_to_decimal(n)), Some(n as u32));
    }
    assert_eq!(parse_u32(&u64_to_decimal(4294967296)), None);
}
