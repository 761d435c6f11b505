use piebot::text::{chars_of, decimal_string, is_whitespace, parse_u32, same_text, split_whitespace, string_of};

#[test]
fn decimal_matches_to_string() {
    for n in [0u64, 1, 9, 10, 11, 99, 100, 12345, 4294967295, 4294967296, u64::MAX] {
        assert_eq!(decimal_string(n), n.to_string());
    }
}

#[test]
fn parse_u32_matches_std() {
    let cases = [
        "", "+", "-", "-0", "0", "00", "+7", "++7", "42", " 42", "42 ", "4294967295", "4294967296",
        "99999999999999999999", "12a", "٣", "1_000", "+0004294967295",
    ];
    for c in cases {
        let v = chars_of(c);
        assert_eq!(parse_u32(&v), c.parse::<u32>().ok(), "input {c:?}");
    }
}

#[test]
fn whitespace_matches_std_for_every_char() {
    for u in 0u32..=0x10FFFF {
        if let Some(c) = char::from_u32(u) {
            assert_eq!(is_whitespace(c), c.is_whitespace(), "char {u:#x}");
        }
    }
}

#[test]
fn split_whitespace_matches_std() {
    let cases = ["", " ", "a", " a ", "3 4", "  12\t\n 7  x", "a\u{3000}b\u{85}c", "é è"];
    for c in cases {
        let got: Vec<String> = split_whitespace(&chars_of(c)).iter().map(|w| string_of(w)).collect();
        let want: Vec<String> = c.split_whitespace().map(|w| w.to_string()).collect();
        assert_eq!(got, want, "input {c:?}");
    }
}

#[test]
fn same_text_compares_characters() {
    assert!(same_text("play", "play"));
    assert!(!same_text("play", "plays"));
    assert!(!same_text("Play", "play"));
    assert!(same_text("", ""));
}
