use fluvio_entry::text::contains_char;
use fluvio_entry::text::decimal_text;
use fluvio_entry::text::find_char;
use fluvio_entry::text::join;
use fluvio_entry::text::same_text;
use fluvio_entry::text::strip_prefix;

#[test]
fn same_text_compares_contents() {
    assert!(same_text("abc", "abc"));
    assert!(same_text("", ""));
    assert!(!same_text("abc", "abd"));
    assert!(!same_text("abc", "ab"));
    assert!(!same_text("", "a"));
}

#[test]
fn find_char_gives_first_position() {
    assert_eq!(find_char("a=b=c", '='), Some(1));
    assert_eq!(find_char("=", '='), Some(0));
    assert_eq!(find_char("abc", '='), None);
    assert_eq!(find_char("", '='), None);
}

#[test]
fn find_char_counts_characters_not_bytes() {
    assert_eq!(find_char("héé=x", '='), Some(3));
    assert_eq!(find_char("日本語", '語'), Some(2));
}

#[test]
fn contains_char_finds_nul() {
    assert!(contains_char("a\0b", '\0'));
    assert!(!contains_char("ab", '\0'));
    assert!(!contains_char("", '\0'));
}

#[test]
fn strip_prefix_removes_leading_text() {
    assert_eq!(strip_prefix("fluvio-cloud", "fluvio-"), Some("cloud".to_string()));
    assert_eq!(strip_prefix("fluvio-", "fluvio-"), Some(String::new()));
    assert_eq!(strip_prefix("abc", ""), Some("abc".to_string()));
}

#[test]
fn strip_prefix_refuses_other_beginnings() {
    assert_eq!(strip_prefix("fluvi", "fluvio-"), None);
    assert_eq!(strip_prefix("xfluvio-cloud", "fluvio-"), None);
    assert_eq!(strip_prefix("", "fluvio-"), None);
}

#[test]
fn strip_prefix_handles_wide_characters() {
    assert_eq!(strip_prefix("日本語", "日"), Some("本語".to_string()));
}

#[test]
fn join_puts_separator_between_neighbours() {
    let parts = vec!["a".to_string(), "b".to_string(), "c".to_string()];
    assert_eq!(join(&parts, " "), "a b c");
    assert_eq!(join(&parts, ", "), "a, b, c");
}

#[test]
fn join_of_one_part_has_no_separator() {
    assert_eq!(join(&vec!["only".to_string()], " "), "only");
}

#[test]
fn join_of_nothing_is_empty() {
    assert_eq!(join(&Vec::new(), " "), "");
}

#[test]
fn join_keeps_empty_parts() {
    let parts = vec!["".to_string(), "x".to_string(), "".to_string()];
    assert_eq!(join(&parts, "-"), "-x-");
}

#[test]
fn decimal_text_of_small_numbers() {
    assert_eq!(decimal_text(0), "0");
    assert_eq!(decimal_text(7), "7");
    assert_eq!(decimal_text(9), "9");
    assert_eq!(decimal_text(10), "10");
    assert_eq!(decimal_text(15), "15");
    assert_eq!(decimal_text(100), "100");
    assert_eq!(decimal_text(1234567890), "1234567890");
}

#[test]
fn decimal_text_of_negative_numbers() {
    assert_eq!(decimal_text(-1), "-1");
    assert_eq!(decimal_text(-10), "-10");
    assert_eq!(decimal_text(-305), "-305");
}

#[test]
fn decimal_text_at_the_limits() {
    assert_eq!(decimal_text(i32::MAX), "2147483647");
    assert_eq!(decimal_text(i32::MIN), "-2147483648");
}

#[test]
fn decimal_text_agrees_with_to_string() {
    for n in [-100000, -99, -9, 0, 1, 42, 999, 1000, 65535, 20230101] {
        assert_eq!(decimal_text(n), n.to_string());
    }
}
