use linear_cli::text::{
    chars_of, contains_char, contains_text, ends_with_text, i64_text, join_texts, names_match,
    opt_copy, push_decimal, replace_char, same_text, text_after_last, text_before_first, text_or,
};

#[test]
fn chars_of_a_text() {
    assert_eq!(chars_of("héllo"), vec!['h', 'é', 'l', 'l', 'o']);
    assert_eq!(chars_of(""), Vec::<char>::new());
    assert_eq!(chars_of("日本語"), vec!['日', '本', '語']);
}

#[test]
fn text_equality() {
    assert!(same_text("abc", "abc"));
    assert!(!same_text("abc", "abd"));
    assert!(!same_text("abc", "ab"));
    assert!(same_text("", ""));
    assert!(!same_text("ABC", "abc"));
    assert!(names_match("ABC", "abc"));
}

#[test]
fn infix_search() {
    assert!(contains_text("in progress", "progress"));
    assert!(contains_text("in progress", "in"));
    assert!(contains_text("abc", "abc"));
    assert!(contains_text("abc", ""));
    assert!(contains_text("", ""));
    assert!(!contains_text("", "a"));
    assert!(!contains_text("abc", "abcd"));
    assert!(!contains_text("abcabd", "abe"));
    assert!(contains_text("aab", "ab"));
    assert!(contains_char("a-b", '-'));
    assert!(!contains_char("ab", '-'));
}

#[test]
fn suffixes() {
    assert!(ends_with_text("uploads.linear.app", ".linear.app"));
    assert!(!ends_with_text("linear.app", ".linear.app"));
    assert!(ends_with_text("abc", ""));
    assert!(ends_with_text("abc", "abc"));
    assert!(!ends_with_text("abc", "ab"));
}

#[test]
fn splitting() {
    assert_eq!(text_before_first("2024-01-15T10:30:00Z", 'T'), "2024-01-15");
    assert_eq!(text_before_first("no separator", 'T'), "no separator");
    assert_eq!(text_before_first("T", 'T'), "");
    assert_eq!(text_before_first("aTbTc", 'T'), "a");
    assert_eq!(text_after_last("a.b.c", '.'), "c");
    assert_eq!(text_after_last("abc", '.'), "abc");
    assert_eq!(text_after_last("abc.", '.'), "");
    assert_eq!(text_after_last("", '.'), "");
}

#[test]
fn replacing() {
    assert_eq!(replace_char("a\nb\n", '\n', " "), "a b ");
    assert_eq!(replace_char("say \"hi\"", '"', "\\\""), "say \\\"hi\\\"");
    assert_eq!(replace_char("abc", 'x', "y"), "abc");
    assert_eq!(replace_char("aaa", 'a', ""), "");
}

#[test]
fn numbers() {
    let decimal = |n: u64| {
        let mut s = String::new();
        push_decimal(&mut s, n);
        s
    };
    assert_eq!(decimal(0), "0");
    assert_eq!(decimal(7), "7");
    assert_eq!(decimal(10), "10");
    assert_eq!(decimal(1234567890), "1234567890");
    assert_eq!(decimal(u64::MAX), "18446744073709551615");
    assert_eq!(i64_text(0), "0");
    assert_eq!(i64_text(-1), "-1");
    assert_eq!(i64_text(-120), "-120");
    assert_eq!(i64_text(i64::MIN), "-9223372036854775808");
    assert_eq!(i64_text(i64::MAX), "9223372036854775807");
    let mut s = String::from("n=");
    push_decimal(&mut s, 404);
    assert_eq!(s, "n=404");
}

#[test]
fn joining() {
    assert_eq!(join_texts(&vec![], ", "), "");
    assert_eq!(join_texts(&vec!["a".to_string()], ", "), "a");
    assert_eq!(join_texts(&vec!["a".to_string(), "b".to_string(), "".to_string()], ", "), "a, b, ");
}

#[test]
fn optional_texts() {
    assert_eq!(opt_copy(&Some("a".to_string())), Some("a".to_string()));
    assert_eq!(opt_copy(&None), None);
    assert_eq!(text_or(&Some("a".to_string()), "-"), "a");
    assert_eq!(text_or(&None, "-"), "-");
}
