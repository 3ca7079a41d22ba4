use zino_core::text::{decimal_string, join_strings, literal};

#[test]
fn decimal_of_zero_is_one_digit() {
    assert_eq!(decimal_string(0), "0");
}

#[test]
fn decimal_of_largest_value() {
    assert_eq!(decimal_string(u64::MAX), "18446744073709551615");
}

#[test]
fn literal_doubles_quotes() {
    assert_eq!(literal("O'Neil"), "'O''Neil'");
    assert_eq!(literal(""), "''");
}

#[test]
fn join_puts_separator_between_items() {
    let parts = vec!["a".to_string(), "b".to_string(), "c".to_string()];
    assert_eq!(join_strings(&parts, ", "), "a, b, c");
    assert_eq!(join_strings(&Vec::new(), ", "), "");
}
