use chuckle::text::{chars_of, decimal_text, lines_of, signed_decimal_text, str_eq, join_strings};

#[test]
fn decimal_notation() {
    assert_eq!(decimal_text(0), "0");
    assert_eq!(decimal_text(1234567890), "1234567890");
    assert_eq!(decimal_text(u64::MAX), u64::MAX.to_string());
    assert_eq!(signed_decimal_text(-42), "-42");
    assert_eq!(signed_decimal_text(i64::MIN), i64::MIN.to_string());
}

#[test]
fn lines_like_str_lines() {
    for text in ["", "a", "a\n", "a\r\nb\n\nc", "\n", "x\r", "a\rb\n", "\r\n\r\n"] {
        let ours: Vec<String> = lines_of(text).iter().map(|l| l.iter().collect()).collect();
        let std: Vec<String> = text.lines().map(|l| l.to_string()).collect();
        assert_eq!(ours, std, "{:?}", text);
    }
}

#[test]
fn text_helpers() {
    assert_eq!(chars_of("héllo"), vec!['h', 'é', 'l', 'l', 'o']);
    assert!(str_eq("abc", "abc"));
    assert!(!str_eq("abc", "abd"));
    assert!(!str_eq("ab", "abc"));
    let parts = vec!["a".to_string(), "b".to_string(), "c".to_string()];
    assert_eq!(join_strings(&parts, "\n"), "a\nb\nc");
    assert_eq!(join_strings(&vec![], ", "), "");
}
