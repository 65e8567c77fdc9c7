//! Integer rendering/parsing and trimming.

use waldur_cli::text::{i64_text, parse_i64, parse_u32, parse_u64, trim_str, trim_trailing, u64_text};

#[test]
fn decimal_rendering() {
    assert_eq!(u64_text(0), "0");
    assert_eq!(u64_text(18446744073709551615), "18446744073709551615");
    assert_eq!(i64_text(-9223372036854775808), "-9223372036854775808");
    assert_eq!(i64_text(42), "42");
}

#[test]
fn integer_parsing_follows_from_str() {
    for s in ["0", "+1", "-1", "007", "9223372036854775807", "-9223372036854775808", "x", "", "+", "-", " 1", "1 ", "9223372036854775808", "1_000"] {
        assert_eq!(parse_i64(s), s.parse::<i64>().ok(), "{s:?}");
        assert_eq!(parse_u64(s), s.parse::<u64>().ok(), "{s:?}");
        assert_eq!(parse_u32(s), s.parse::<u32>().ok(), "{s:?}");
    }
    assert_eq!(parse_u64("18446744073709551615"), Some(u64::MAX));
    assert_eq!(parse_u64("18446744073709551616"), None);
}

#[test]
fn trimming_follows_std() {
    for s in ["", "  ", " a b ", "\u{3000}x\u{85}", "\t\r\nq\u{a0}", "x"] {
        assert_eq!(trim_str(s), s.trim(), "{s:?}");
    }
    assert_eq!(trim_trailing("https://x///", '/'), "https://x");
    assert_eq!(trim_trailing("///", '/'), "");
}
