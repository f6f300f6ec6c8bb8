use mhxy_store::text::{decimal_text, signed_decimal_text};
use mhxy_store::value::RowError;

#[test]
fn naturals_in_decimal() {
    assert_eq!(decimal_text(0), "0");
    assert_eq!(decimal_text(7), "7");
    assert_eq!(decimal_text(10), "10");
    assert_eq!(decimal_text(1234567890), "1234567890");
    assert_eq!(decimal_text(u64::MAX), "18446744073709551615");
}

#[test]
fn integers_in_decimal() {
    assert_eq!(signed_decimal_text(0), "0");
    assert_eq!(signed_decimal_text(-1), "-1");
    assert_eq!(signed_decimal_text(42), "42");
    assert_eq!(signed_decimal_text(i64::MAX), "9223372036854775807");
    assert_eq!(signed_decimal_text(i64::MIN), "-9223372036854775808");
}

#[test]
fn faults_in_words() {
    assert_eq!(
        RowError::Shape { expected: 6, found: 12 }.message(),
        "row has 12 columns where 6 are expected"
    );
    assert_eq!(
        RowError::InvalidType { column: 3 }.message(),
        "column 3 holds a value of an unexpected type"
    );
    assert_eq!(
        RowError::OutOfRange { column: 10, value: -2147483649 }.message(),
        "column 10 holds the integer -2147483649, which is out of range"
    );
}
