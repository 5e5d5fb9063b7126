use desktop_automater::decimal::{parse_i32, render_decimal};

#[test]
fn parses_plain_numbers() {
    assert_eq!(parse_i32("1"), Some(1));
    assert_eq!(parse_i32("42"), Some(42));
    assert_eq!(parse_i32("007"), Some(7));
    assert_eq!(parse_i32("0"), Some(0));
}

#[test]
fn parses_signed_numbers() {
    assert_eq!(parse_i32("+5"), Some(5));
    assert_eq!(parse_i32("-5"), Some(-5));
    assert_eq!(parse_i32("-0"), Some(0));
    assert_eq!(parse_i32("+0"), Some(0));
}

#[test]
fn parses_the_ends_of_the_range() {
    assert_eq!(parse_i32("2147483647"), Some(i32::MAX));
    assert_eq!(parse_i32("-2147483648"), Some(i32::MIN));
    assert_eq!(parse_i32("+2147483647"), Some(i32::MAX));
    assert_eq!(parse_i32("0000000002147483647"), Some(i32::MAX));
}

#[test]
fn rejects_numbers_out_of_range() {
    assert_eq!(parse_i32("2147483648"), None);
    assert_eq!(parse_i32("-2147483649"), None);
    assert_eq!(parse_i32("99999999999999999999999999"), None);
    assert_eq!(parse_i32("-99999999999999999999999999"), None);
}

#[test]
fn rejects_what_is_no_number() {
    assert_eq!(parse_i32(""), None);
    assert_eq!(parse_i32("+"), None);
    assert_eq!(parse_i32("-"), None);
    assert_eq!(parse_i32("abc"), None);
    assert_eq!(parse_i32("1a"), None);
    assert_eq!(parse_i32("a1"), None);
    assert_eq!(parse_i32(" 1"), None);
    assert_eq!(parse_i32("1 "), None);
    assert_eq!(parse_i32("+-1"), None);
    assert_eq!(parse_i32("--1"), None);
    assert_eq!(parse_i32("1.0"), None);
    assert_eq!(parse_i32("0x10"), None);
    assert_eq!(parse_i32("１"), None);
    assert_eq!(parse_i32("٣"), None);
    assert_eq!(parse_i32("99999999999999999999x"), None);
}

#[test]
fn parses_as_the_standard_library_does() {
    let samples = [
        "", "+", "-", "0", "-0", "+0", "1", "-1", "+1", "12", "0012", "2147483647", "2147483648",
        "-2147483648", "-2147483649", "4294967296", "abc", "1a", " 1", "1 ", "+-1", "-+1", "1-",
        "９", "1_000", "1e3", "٣", "99999999999999999999",
    ];
    for sample in samples {
        assert_eq!(parse_i32(sample), sample.parse::<i32>().ok(), "{:?}", sample);
    }
}

#[test]
fn renders_numbers() {
    assert_eq!(render_decimal(0), "0");
    assert_eq!(render_decimal(7), "7");
    assert_eq!(render_decimal(10), "10");
    assert_eq!(render_decimal(2147483646), "2147483646");
    assert_eq!(render_decimal(1000000), "1000000");
}

#[test]
fn renders_negative_numbers() {
    assert_eq!(render_decimal(-1), "-1");
    assert_eq!(render_decimal(-10), "-10");
    assert_eq!(render_decimal(-2147483649), "-2147483649");
}

#[test]
fn renders_the_ends_of_the_range() {
    assert_eq!(render_decimal(i64::MIN), "-9223372036854775808");
    assert_eq!(render_decimal(i64::MAX), "9223372036854775807");
}

#[test]
fn renders_as_the_standard_library_does() {
    let samples: [i64; 12] =
        [0, 1, -1, 9, 10, 11, 99, 100, -100, 123456789, i64::MIN + 1, i64::MAX - 1];
    for sample in samples {
        assert_eq!(render_decimal(sample), format!("{}", sample));
    }
}

#[test]
fn reads_back_what_it_wrote() {
    let samples: [i32; 9] = [0, 1, -1, 10, -10, 4096, -4096, i32::MAX, i32::MIN];
    for sample in samples {
        let text = render_decimal(sample as i64);
        assert_eq!(parse_i32(&text), Some(sample));
    }
}
