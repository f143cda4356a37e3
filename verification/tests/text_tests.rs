use piri::text::{parse_unsigned, same_text, split_whitespace, to_decimal};

#[test]
fn split_whitespace_matches_std() {
    for s in ["", "   ", "a", " a  b\tc\n", "40% 60%", "x\u{3000}y\u{85}z", "1 (bash) S 17 1 1"] {
        let ours = split_whitespace(s);
        let std_parts: Vec<String> = s.split_whitespace().map(|p| p.to_string()).collect();
        assert_eq!(ours, std_parts, "input {:?}", s);
    }
}

#[test]
fn parse_unsigned_matches_std() {
    for s in ["0", "7", "+7", "255", "256", "", "+", "-1", "007", "1a", " 1", "4294967295", "4294967296"] {
        assert_eq!(parse_unsigned(s, u8::MAX as u64).map(|v| v as u8), s.parse::<u8>().ok(), "u8 {:?}", s);
        assert_eq!(parse_unsigned(s, u32::MAX as u64).map(|v| v as u32), s.parse::<u32>().ok(), "u32 {:?}", s);
        assert_eq!(parse_unsigned(s, u64::MAX), s.parse::<u64>().ok(), "u64 {:?}", s);
    }
    assert_eq!(parse_unsigned("18446744073709551615", u64::MAX), Some(u64::MAX));
    assert_eq!(parse_unsigned("18446744073709551616", u64::MAX), None);
}

#[test]
fn decimal_matches_to_string() {
    for n in [0u64, 9, 10, 42, 255, 1000, u64::MAX] {
        assert_eq!(to_decimal(n), n.to_string());
    }
}

#[test]
fn same_text_compares_characters() {
    assert!(same_text("abc", "abc"));
    assert!(!same_text("abc", "abd"));
    assert!(!same_text("abc", "ab"));
    assert!(same_text("", ""));
}
