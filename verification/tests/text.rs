use phys_rs::text::{bracketed3_string, bracketed4_string, i64_to_string, u64_to_string,
    usize_to_string};

#[test]
fn test_decimal_zero() {
    assert_eq!(u64_to_string(0), "0");
}

#[test]
fn test_decimal_single_digit() {
    assert_eq!(u64_to_string(7), "7");
}

#[test]
fn test_decimal_carries() {
    assert_eq!(u64_to_string(10), "10");
    assert_eq!(u64_to_string(1234567890), "1234567890");
    assert_eq!(u64_to_string(u64::MAX), "18446744073709551615");
}

#[test]
fn test_decimal_usize() {
    assert_eq!(usize_to_string(42), "42");
}

#[test]
fn test_decimal_signed() {
    assert_eq!(i64_to_string(-45), "-45");
    assert_eq!(i64_to_string(0), "0");
    assert_eq!(i64_to_string(i64::MAX), "9223372036854775807");
    assert_eq!(i64_to_string(i64::MIN + 1), "-9223372036854775807");
}

#[test]
fn test_bracketed_forms() {
    assert_eq!(bracketed3_string(1, 2, 3), "[1, 2, 3]");
    assert_eq!(bracketed4_string(1, 2, 3, 4), "[1, 2, 3, 4]");
    assert_eq!(bracketed3_string(-10, 0, 99), "[-10, 0, 99]");
}
