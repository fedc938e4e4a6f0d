use volumio_plugins::text::{parse_i32, parse_u32, parse_u64, u128_decimal, u64_decimal};

#[test]
fn unsigned_parsing_matches_std() {
    for s in ["0", "+5", "42", "4294967295", "4294967296", "", "+", "-1", " 1", "1a", "007"] {
        assert_eq!(parse_u32(s), s.parse::<u32>().ok(), "{s:?}");
    }
    for s in ["18446744073709551615", "18446744073709551616", "+0", "x"] {
        assert_eq!(parse_u64(s), s.parse::<u64>().ok(), "{s:?}");
    }
}

#[test]
fn signed_parsing_matches_std() {
    for s in ["-1", "-2147483648", "-2147483649", "2147483647", "2147483648", "-", "+-1", "-+1", "+12"] {
        assert_eq!(parse_i32(s), s.parse::<i32>().ok(), "{s:?}");
    }
}

#[test]
fn decimal_text_matches_display() {
    for n in [0u64, 7, 10, 99, 100, 12345, u64::MAX] {
        assert_eq!(u64_decimal(n), n.to_string());
    }
    assert_eq!(u128_decimal(u128::MAX), u128::MAX.to_string());
}
