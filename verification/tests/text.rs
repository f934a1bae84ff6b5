use overlearn::text::{decimal_string, push_decimal, str_eq};

#[test]
fn decimal_of_zero_is_a_single_digit() {
    assert_eq!(decimal_string(0), "0");
}

#[test]
fn decimal_of_small_numbers() {
    assert_eq!(decimal_string(7), "7");
    assert_eq!(decimal_string(10), "10");
    assert_eq!(decimal_string(25), "25");
    assert_eq!(decimal_string(100), "100");
    assert_eq!(decimal_string(1005), "1005");
}

#[test]
fn decimal_of_negative_numbers_has_a_minus_sign() {
    assert_eq!(decimal_string(-1), "-1");
    assert_eq!(decimal_string(-40), "-40");
    assert_eq!(decimal_string(-123456), "-123456");
}

#[test]
fn decimal_of_the_extremes() {
    assert_eq!(decimal_string(i32::MAX), "2147483647");
    assert_eq!(decimal_string(i32::MIN), "-2147483648");
}

#[test]
fn decimal_agrees_with_the_standard_formatting() {
    let samples: Vec<i32> = vec![
        0, 1, -1, 9, 10, 11, 99, 100, 101, 999, 1000, -9, -10, -99, -100, 65535, -65536,
        1_000_000_000, -1_000_000_000, i32::MAX, i32::MIN, i32::MAX - 1, i32::MIN + 1,
    ];
    for n in samples {
        assert_eq!(decimal_string(n), format!("{}", n));
    }
    let mut n: i32 = -2500;
    while n <= 2500 {
        assert_eq!(decimal_string(n), format!("{}", n));
        n += 1;
    }
}

#[test]
fn push_decimal_appends_and_keeps_what_was_there() {
    let mut out = String::from("Your ");
    push_decimal(&mut out, 45);
    assert_eq!(out, "Your 45");
    push_decimal(&mut out, -3);
    assert_eq!(out, "Your 45-3");
    push_decimal(&mut out, 0);
    assert_eq!(out, "Your 45-30");
}

#[test]
fn str_eq_on_equal_text() {
    assert!(str_eq("", ""));
    assert!(str_eq("work", "work"));
    assert!(str_eq("⏱️ Timer Complete", "⏱️ Timer Complete"));
}

#[test]
fn str_eq_on_different_text() {
    assert!(!str_eq("work", "break"));
    assert!(!str_eq("work", "Work"));
    assert!(!str_eq("work", "work "));
    assert!(!str_eq("wor", "work"));
    assert!(!str_eq("", "x"));
    assert!(!str_eq("🌱", "🚀"));
    assert!(!str_eq("é", "e\u{301}"));
}
