use ownership_demo::decimal::u64_to_decimal;

#[test]
fn zero_is_one_digit() {
    assert_eq!(u64_to_decimal(0), "0");
}

#[test]
fn single_digits() {
    assert_eq!(u64_to_decimal(7), "7");
    assert_eq!(u64_to_decimal(9), "9");
}

#[test]
fn several_digits_no_padding() {
    assert_eq!(u64_to_decimal(13), "13");
    assert_eq!(u64_to_decimal(42), "42");
    assert_eq!(u64_to_decimal(100), "100");
    assert_eq!(u64_to_decimal(90210), "90210");
}

#[test]
fn largest_value() {
    assert_eq!(u64_to_decimal(u64::MAX), "18446744073709551615");
}
