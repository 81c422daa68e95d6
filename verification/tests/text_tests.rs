use scissors_console::text::{decimal_string, push_decimal, push_signed_decimal};

#[test]
fn decimal_digits_without_leading_zeros() {
    assert_eq!(decimal_string(0), "0");
    assert_eq!(decimal_string(7), "7");
    assert_eq!(decimal_string(10), "10");
    assert_eq!(decimal_string(1_000_000_000), "1000000000");
    assert_eq!(decimal_string(u64::MAX), "18446744073709551615");
}

#[test]
fn decimal_agrees_with_standard_formatting() {
    let mut n: u64 = 1;
    for _ in 0..64 {
        for m in [n - 1, n, n + 1, n.wrapping_mul(3)] {
            assert_eq!(decimal_string(m), format!("{}", m));
        }
        n = n.wrapping_mul(2);
    }
}

#[test]
fn push_decimal_appends() {
    let mut s = String::from("rate=");
    push_decimal(&mut s, 1000);
    assert_eq!(s, "rate=1000");
    push_decimal(&mut s, 0);
    assert_eq!(s, "rate=10000");
}

#[test]
fn signed_decimal_has_a_minus_sign_for_negatives_only() {
    for (value, text) in [
        (0i64, "0"),
        (-1, "-1"),
        (1, "1"),
        (-2147483648, "-2147483648"),
        (i64::MAX, "9223372036854775807"),
        (i64::MIN, "-9223372036854775808"),
    ] {
        let mut s = String::new();
        push_signed_decimal(&mut s, value);
        assert_eq!(s, text);
    }
}
