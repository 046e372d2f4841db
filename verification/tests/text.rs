use chess_perft::text::{char_is_digit, numeric, pad_zeros};

#[test]
fn digits_are_the_ten_ascii_digits() {
    for c in "0123456789".chars() {
        assert!(char_is_digit(c));
    }
    assert!(!char_is_digit('a'));
    assert!(!char_is_digit('/'));
    assert!(!char_is_digit(':'));
    assert!(!char_is_digit('٣'));
}

#[test]
fn numeric_accepts_digits_only() {
    assert!(numeric("0"));
    assert!(numeric("0123"));
    assert!(numeric("824064"));
    assert!(!numeric("12a"));
    assert!(!numeric("a12"));
    assert!(!numeric("1 2"));
    assert!(!numeric("-1"));
    assert!(!numeric("kiwipete"));
}

#[test]
fn numeric_rejects_the_empty_text() {
    assert!(!numeric(""));
}

#[test]
fn pad_zeros_fills_the_front() {
    assert_eq!(pad_zeros("1", 2), "01");
    assert_eq!(pad_zeros("7", 4), "0007");
    assert_eq!(pad_zeros("", 3), "000");
}

#[test]
fn pad_zeros_keeps_what_is_wide_enough() {
    assert_eq!(pad_zeros("10", 2), "10");
    assert_eq!(pad_zeros("123", 2), "123");
    assert_eq!(pad_zeros("5", 0), "5");
    assert_eq!(pad_zeros("", 0), "");
}

#[test]
fn pad_zeros_counts_characters_not_bytes() {
    assert_eq!(pad_zeros("é", 3), "00é");
}
