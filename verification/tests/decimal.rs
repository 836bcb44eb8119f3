use query_export::decimal::{decimal_string, digit_str, push_digits};

#[test]
fn decimal_of_the_extremes() {
    assert_eq!(decimal_string(i64::MAX), "9223372036854775807");
    assert_eq!(decimal_string(i64::MIN), "-9223372036854775808");
    assert_eq!(decimal_string(0), "0");
    assert_eq!(decimal_string(-1), "-1");
    assert_eq!(decimal_string(10), "10");
    assert_eq!(decimal_string(-100), "-100");
    assert_eq!(decimal_string(1234567890), "1234567890");
}

#[test]
fn decimal_agrees_with_display() {
    let samples: [i64; 9] = [1, 9, 99, 101, -9, -10, 4294967296, -4294967297, 1000000007];
    for n in samples {
        assert_eq!(decimal_string(n), format!("{}", n));
    }
}

#[test]
fn digits_are_appended() {
    let mut s = "n=".to_string();
    push_digits(&mut s, 18446744073709551615);
    assert_eq!(s, "n=18446744073709551615");
    assert_eq!(digit_str(0), "0");
    assert_eq!(digit_str(9), "9");
}
