use p4mux::text::{append_decimal, chars_of, flatten, decimal_string, join, same_text};

#[test]
fn decimal_of_zero_is_one_digit() {
    assert_eq!(decimal_string(0), "0");
}

#[test]
fn decimal_of_single_digits() {
    assert_eq!(decimal_string(1), "1");
    assert_eq!(decimal_string(7), "7");
    assert_eq!(decimal_string(9), "9");
}

#[test]
fn decimal_has_most_significant_digit_first() {
    assert_eq!(decimal_string(10), "10");
    assert_eq!(decimal_string(42), "42");
    assert_eq!(decimal_string(100), "100");
    assert_eq!(decimal_string(1234567890), "1234567890");
}

#[test]
fn decimal_of_the_largest_count() {
    assert_eq!(decimal_string(u64::MAX), "18446744073709551615");
}

#[test]
fn decimal_agrees_with_the_standard_rendering() {
    for n in [0u64, 5, 19, 90, 101, 999, 1000, 65535, 4294967296] {
        assert_eq!(decimal_string(n), n.to_string());
    }
}

#[test]
fn append_decimal_keeps_what_is_there() {
    let mut out = String::from("n=");
    append_decimal(305, &mut out);
    assert_eq!(out, "n=305");
}

#[test]
fn same_text_tells_equal_from_different() {
    assert!(same_text("status", "status"));
    assert!(same_text("", ""));
    assert!(!same_text("status", "statu"));
    assert!(!same_text("status", "Status"));
    assert!(!same_text("add", "edit"));
    assert!(same_text("\u{f1616}", "\u{f1616}"));
    assert!(!same_text("\u{f1616}", "\u{f01b4}"));
}

#[test]
fn concat_puts_parts_in_order() {
    let parts = vec!["a".to_string(), "".to_string(), "bc".to_string(), "d".to_string()];
    assert_eq!(flatten(&parts), "abcd");
    assert_eq!(flatten(&Vec::new()), "");
}

#[test]
fn join_puts_the_separator_between_neighbours_only() {
    let parts = vec!["a".to_string(), "b".to_string(), "c".to_string()];
    assert_eq!(join(&parts, ", "), "a, b, c");
    assert_eq!(join(&vec!["a".to_string()], ", "), "a");
    assert_eq!(join(&Vec::new(), ", "), "");
    assert_eq!(join(&parts, ""), "abc");
}

#[test]
fn chars_of_gives_every_character() {
    assert_eq!(chars_of("a\u{ea60}b"), vec!['a', '\u{ea60}', 'b']);
    assert_eq!(chars_of(""), Vec::<char>::new());
}
