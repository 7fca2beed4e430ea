use imaginal::text::{contains, decimal_text, parse_u16};

#[test]
fn decimal_text_writes_digits() {
    assert_eq!(decimal_text(0), "0");
    assert_eq!(decimal_text(7), "7");
    assert_eq!(decimal_text(9761), "9761");
    assert_eq!(decimal_text(65535), "65535");
}

#[test]
fn parse_u16_accepts_std_forms() {
    assert_eq!(parse_u16("9761"), Some(9761));
    assert_eq!(parse_u16("+80"), Some(80));
    assert_eq!(parse_u16("0065535"), Some(65535));
    assert_eq!(parse_u16("0"), Some(0));
}

#[test]
fn parse_u16_rejects_bad_text() {
    assert_eq!(parse_u16(""), None);
    assert_eq!(parse_u16("+"), None);
    assert_eq!(parse_u16("65536"), None);
    assert_eq!(parse_u16("99999999999"), None);
    assert_eq!(parse_u16("12a"), None);
    assert_eq!(parse_u16(" 12"), None);
    assert_eq!(parse_u16("-1"), None);
}

#[test]
fn parse_u16_agrees_with_std() {
    for text in ["1", "+1", "00", "65535", "65536", "", "x", "+", "++1", "1 "] {
        assert_eq!(parse_u16(text), text.parse::<u16>().ok(), "{}", text);
    }
}

#[test]
fn contains_finds_substrings() {
    assert!(contains("use lastfm please", "lastfm"));
    assert!(contains("spotify", "spotify"));
    assert!(contains("abc", ""));
    assert!(!contains("spot", "spotify"));
    assert!(!contains("lastf m", "lastfm"));
}
