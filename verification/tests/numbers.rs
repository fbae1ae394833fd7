use challenges::numbers::{read_integer, read_number, read_u32, to_decimal};

#[test]
fn to_decimal_writes_numbers_as_the_standard_library_does() {
    for n in [0u64, 1, 9, 10, 11, 99, 100, 101, 12345, 4294967295, 4294967296, u64::MAX] {
        assert_eq!(to_decimal(n), n.to_string());
    }
    assert_eq!(to_decimal(0), "0");
    assert_eq!(to_decimal(1020), "1020");
    assert_eq!(to_decimal(u64::MAX), "18446744073709551615");
}

#[test]
fn read_number_reads_digits_with_an_optional_plus() {
    assert_eq!(read_number("42"), Some(42));
    assert_eq!(read_number(" 42\n"), Some(42));
    assert_eq!(read_number("+7"), Some(7));
    assert_eq!(read_number("007"), Some(7));
    assert_eq!(read_number("0"), Some(0));
    assert_eq!(read_number("18446744073709551615"), Some(u64::MAX));
}

#[test]
fn read_number_rejects_everything_else() {
    assert_eq!(read_number(""), None);
    assert_eq!(read_number("   "), None);
    assert_eq!(read_number("+"), None);
    assert_eq!(read_number("-1"), None);
    assert_eq!(read_number("-0"), None);
    assert_eq!(read_number("++1"), None);
    assert_eq!(read_number("1 2"), None);
    assert_eq!(read_number("1_000"), None);
    assert_eq!(read_number("12a"), None);
    assert_eq!(read_number("1.5"), None);
    assert_eq!(read_number("18446744073709551616"), None);
}

#[test]
fn read_u32_stops_at_32_bits() {
    assert_eq!(read_u32("4294967295"), Some(u32::MAX));
    assert_eq!(read_u32("4294967296"), None);
    assert_eq!(read_u32("+12"), Some(12));
    assert_eq!(read_u32(" 12"), None);
    assert_eq!(read_u32(""), None);
}

#[test]
fn read_integer_reads_a_sign() {
    assert_eq!(read_integer("5"), Some(5));
    assert_eq!(read_integer("+5"), Some(5));
    assert_eq!(read_integer("-5\n"), Some(-5));
    assert_eq!(read_integer("-0"), Some(0));
    assert_eq!(read_integer("2147483647"), Some(i32::MAX));
    assert_eq!(read_integer("-2147483648"), Some(i32::MIN));
    assert_eq!(read_integer("2147483648"), None);
    assert_eq!(read_integer("-2147483649"), None);
    assert_eq!(read_integer("-"), None);
    assert_eq!(read_integer("+-5"), None);
    assert_eq!(read_integer("--5"), None);
    assert_eq!(read_integer("5-"), None);
    assert_eq!(read_integer(""), None);
}
