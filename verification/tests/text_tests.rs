use adpt::text::{
    completions, decimal, is_listed, same_text, signed_decimal, starts_with, trim,
};

#[test]
fn decimal_writes_numbers_without_padding() {
    assert_eq!(decimal(0), "0");
    assert_eq!(decimal(7), "7");
    assert_eq!(decimal(10), "10");
    assert_eq!(decimal(1_640_995_200), "1640995200");
    assert_eq!(decimal(u64::MAX), "18446744073709551615");
}

#[test]
fn decimal_agrees_with_the_standard_formatting() {
    let mut n: u64 = 1;
    while n < u64::MAX / 7 {
        assert_eq!(decimal(n), format!("{}", n));
        assert_eq!(decimal(n - 1), format!("{}", n - 1));
        n *= 7;
    }
}

#[test]
fn signed_decimal_writes_the_sign() {
    assert_eq!(signed_decimal(0), "0");
    assert_eq!(signed_decimal(42), "42");
    assert_eq!(signed_decimal(-1), "-1");
    assert_eq!(signed_decimal(-120), "-120");
    assert_eq!(signed_decimal(i64::MAX), "9223372036854775807");
    assert_eq!(signed_decimal(i64::MIN), "-9223372036854775808");
}

#[test]
fn same_text_compares_characters() {
    assert!(same_text("", ""));
    assert!(same_text("abc", "abc"));
    assert!(!same_text("abc", "abd"));
    assert!(!same_text("abc", "ab"));
    assert!(same_text("né", "né"));
}

#[test]
fn is_listed_finds_an_item() {
    let list = vec!["a".to_string(), "bc".to_string()];
    assert!(is_listed(&list, "a"));
    assert!(is_listed(&list, "bc"));
    assert!(!is_listed(&list, "b"));
    assert!(!is_listed(&[], "a"));
}

#[test]
fn starts_with_tests_the_prefix() {
    assert!(starts_with("recipe", ""));
    assert!(starts_with("recipe", "rec"));
    assert!(starts_with("recipe", "recipe"));
    assert!(!starts_with("recipe", "recipes"));
    assert!(!starts_with("recipe", "ecipe"));
    assert!(starts_with("éclair", "é"));
    assert!(!starts_with("", "a"));
}

#[test]
fn trim_takes_whitespace_off_both_ends() {
    assert_eq!(trim(""), "");
    assert_eq!(trim("   "), "");
    assert_eq!(trim("abc"), "abc");
    assert_eq!(trim("  a b \t\n"), "a b");
    assert_eq!(trim("\u{2003}key\u{a0}"), "key");
    assert_eq!(trim("x "), "x");
    assert_eq!(trim(" x"), "x");
}

#[test]
fn completions_keep_what_begins_with_the_typed_text() {
    let keys = vec!["train".to_string(), "eval".to_string(), "transform".to_string()];
    assert_eq!(completions(&keys, "tr"), vec!["train".to_string(), "transform".to_string()]);
    assert_eq!(completions(&keys, ""), keys);
    assert_eq!(completions(&keys, "x"), Vec::<String>::new());
    assert_eq!(completions(&keys, "eval"), vec!["eval".to_string()]);
    assert_eq!(completions(&Vec::new(), "e"), Vec::<String>::new());
}
