use heatzy::text::{decimal_text, same_text};

#[test]
fn decimal_text_of_small_numbers() {
    assert_eq!(decimal_text(0), "0");
    assert_eq!(decimal_text(7), "7");
    assert_eq!(decimal_text(10), "10");
    assert_eq!(decimal_text(404), "404");
    assert_eq!(decimal_text(-1), "-1");
    assert_eq!(decimal_text(-120), "-120");
}

#[test]
fn decimal_text_of_the_extremes() {
    assert_eq!(decimal_text(i64::MAX), "9223372036854775807");
    assert_eq!(decimal_text(i64::MIN), "-9223372036854775808");
}

#[test]
fn decimal_text_agrees_with_std() {
    for number in [-1000i64, -99, -10, -9, 1, 9, 99, 100, 101, 999, 1000, 65535, 1234567890] {
        assert_eq!(decimal_text(number), number.to_string());
    }
}

#[test]
fn same_text_compares_characters() {
    assert!(same_text("", ""));
    assert!(same_text("eco", "eco"));
    assert!(!same_text("eco", "ecO"));
    assert!(!same_text("eco", "eco "));
    assert!(!same_text("cft", "cft1"));
}
