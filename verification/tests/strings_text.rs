use twitch_eventsub::strings::{bool_to_text, contains_str, join_strs, str_equal, u32_to_decimal, u8_to_decimal};

#[test]
fn decimal_rendering() {
    assert_eq!(u32_to_decimal(0), "0");
    assert_eq!(u32_to_decimal(7), "7");
    assert_eq!(u32_to_decimal(10), "10");
    assert_eq!(u32_to_decimal(1203), "1203");
    assert_eq!(u32_to_decimal(u32::MAX), "4294967295");
    assert_eq!(u8_to_decimal(2), "2");
    assert_eq!(u8_to_decimal(255), "255");
}

#[test]
fn decimal_matches_to_string() {
    for n in [0u32, 1, 9, 99, 100, 65535, 123456789] {
        assert_eq!(u32_to_decimal(n), n.to_string());
    }
}

#[test]
fn booleans_as_text() {
    assert_eq!(bool_to_text(true), "true");
    assert_eq!(bool_to_text(false), "false");
}

#[test]
fn infix_search() {
    assert!(contains_str("/auth?code=abc", "code="));
    assert!(contains_str("code=", "code="));
    assert!(contains_str("anything", ""));
    assert!(!contains_str("/auth?cod=abc", "code="));
    assert!(!contains_str("code", "code="));
    assert!(!contains_str("", "code="));
    assert!(contains_str("ééé code=", "code="));
}

#[test]
fn string_equality() {
    assert!(str_equal("abc", "abc"));
    assert!(!str_equal("abc", "abd"));
    assert!(!str_equal("abc", "ab"));
    assert!(str_equal("", ""));
}

#[test]
fn joining() {
    assert_eq!(join_strs(&vec![], " "), "");
    assert_eq!(join_strs(&vec!["bits:read"], " "), "bits:read");
    assert_eq!(join_strs(&vec!["a", "b", "c"], " "), "a b c");
    assert_eq!(join_strs(&vec!["a", "", "c"], ", "), "a, , c");
}
