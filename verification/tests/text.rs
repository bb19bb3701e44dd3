use agent_bridge::text::{decimal_string, same_text};

#[test]
fn decimal_string_of_small_and_large_numbers() {
    assert_eq!(decimal_string(0), "0");
    assert_eq!(decimal_string(7), "7");
    assert_eq!(decimal_string(9), "9");
    assert_eq!(decimal_string(10), "10");
    assert_eq!(decimal_string(99), "99");
    assert_eq!(decimal_string(100), "100");
    assert_eq!(decimal_string(1005), "1005");
    assert_eq!(decimal_string(12345), "12345");
    assert_eq!(decimal_string(65535), "65535");
}

#[test]
fn decimal_string_agrees_with_std_on_every_number() {
    for n in 0u16..=u16::MAX {
        assert_eq!(decimal_string(n), n.to_string());
    }
}

#[test]
fn same_text_compares_characters() {
    assert!(same_text("", ""));
    assert!(same_text("GET", "GET"));
    assert!(!same_text("GET", "get"));
    assert!(!same_text("GET", "GE"));
    assert!(!same_text("GE", "GET"));
    assert!(!same_text("GET", "GEX"));
    assert!(!same_text("", "x"));
    assert!(same_text("é\u{1f600}", "é\u{1f600}"));
    assert!(!same_text("é", "e\u{301}"));
}
