use jormungandr_rest::digits::u32_decimal;

#[test]
fn numeral_of_zero() {
    assert_eq!(u32_decimal(0), "0");
}

#[test]
fn numeral_of_one_digit() {
    assert_eq!(u32_decimal(7), "7");
}

#[test]
fn numeral_of_round_number() {
    assert_eq!(u32_decimal(100), "100");
}

#[test]
fn numeral_of_mixed_digits() {
    assert_eq!(u32_decimal(1234567890), "1234567890");
}

#[test]
fn numeral_of_largest_u32() {
    assert_eq!(u32_decimal(u32::MAX), "4294967295");
}
