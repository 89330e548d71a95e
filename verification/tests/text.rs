use backend::text::{concat_str, contains_char, parse_i64, parse_u32, str_eq, u64_to_decimal};

#[test]
fn unsigned_parsing_matches_str_parse() {
    for s in ["0", "15", "+15", "007", "4294967295", "4294967296", "", "+", "-1", "1a", " 1", "１"] {
        assert_eq!(parse_u32(s), s.parse::<u32>().ok(), "input {:?}", s);
    }
}

#[test]
fn signed_parsing_matches_str_parse() {
    for s in [
        "0", "-0", "42", "+42", "-42", "9223372036854775807", "9223372036854775808",
        "-9223372036854775808", "-9223372036854775809", "", "-", "+", "--1", "3.5",
    ] {
        assert_eq!(parse_i64(s), s.parse::<i64>().ok(), "input {:?}", s);
    }
}

#[test]
fn decimal_rendering() {
    for n in [0u64, 7, 10, 1234567890, u64::MAX] {
        assert_eq!(u64_to_decimal(n), n.to_string());
    }
}

#[test]
fn string_helpers() {
    assert!(str_eq("héllo", "héllo"));
    assert!(!str_eq("héllo", "hello"));
    assert!(!str_eq("a", "ab"));
    assert_eq!(concat_str("ab", "ç"), "abç");
    assert!(contains_char("a@b", '@'));
    assert!(!contains_char("ab", '@'));
}
