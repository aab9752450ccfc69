use leaderboard_gateway::decimal::{format_i32, parse_i32, push_natural};

#[test]
fn parse_reads_plain_digits() {
    assert_eq!(parse_i32("2022"), Some(2022));
    assert_eq!(parse_i32("0"), Some(0));
    assert_eq!(parse_i32("7"), Some(7));
    assert_eq!(parse_i32("1999"), Some(1999));
}

#[test]
fn parse_reads_signs() {
    assert_eq!(parse_i32("+2022"), Some(2022));
    assert_eq!(parse_i32("-2022"), Some(-2022));
    assert_eq!(parse_i32("-0"), Some(0));
    assert_eq!(parse_i32("+0"), Some(0));
}

#[test]
fn parse_reads_leading_zeros() {
    assert_eq!(parse_i32("0002022"), Some(2022));
    assert_eq!(parse_i32("-000"), Some(0));
    assert_eq!(
        parse_i32("00000000000000000000000000000000000000001"),
        Some(1)
    );
}

#[test]
fn parse_reads_the_ends_of_the_range() {
    assert_eq!(parse_i32("2147483647"), Some(i32::MAX));
    assert_eq!(parse_i32("-2147483648"), Some(i32::MIN));
    assert_eq!(parse_i32("+2147483647"), Some(i32::MAX));
}

#[test]
fn parse_refuses_what_is_out_of_range() {
    assert_eq!(parse_i32("2147483648"), None);
    assert_eq!(parse_i32("-2147483649"), None);
    assert_eq!(parse_i32("99999999999999999999"), None);
    assert_eq!(parse_i32("-99999999999999999999"), None);
    assert_eq!(parse_i32("21474836470"), None);
}

#[test]
fn parse_refuses_what_is_no_integer() {
    assert_eq!(parse_i32(""), None);
    assert_eq!(parse_i32("+"), None);
    assert_eq!(parse_i32("-"), None);
    assert_eq!(parse_i32("notanumber"), None);
    assert_eq!(parse_i32("20 22"), None);
    assert_eq!(parse_i32(" 2022"), None);
    assert_eq!(parse_i32("2022 "), None);
    assert_eq!(parse_i32("2022x"), None);
    assert_eq!(parse_i32("x2022"), None);
    assert_eq!(parse_i32("--1"), None);
    assert_eq!(parse_i32("+-1"), None);
    assert_eq!(parse_i32("1-"), None);
    assert_eq!(parse_i32("20.22"), None);
    assert_eq!(parse_i32("2_022"), None);
    assert_eq!(parse_i32("0x10"), None);
    assert_eq!(parse_i32("1e3"), None);
}

#[test]
fn parse_refuses_digits_outside_ascii() {
    assert_eq!(parse_i32("２０２２"), None);
    assert_eq!(parse_i32("٢٠٢٢"), None);
    assert_eq!(parse_i32("2022é"), None);
    assert_eq!(parse_i32("−5"), None);
}

#[test]
fn parse_agrees_with_the_standard_parser() {
    let samples = [
        "", "0", "1", "-1", "+1", "10", "100", "2022", "-2022", "+", "-", "a", "1a", "a1",
        " 1", "1 ", "2147483647", "2147483648", "-2147483648", "-2147483649", "000", "-000",
        "00000000002147483647", "00000000002147483648", "4294967296", "1.0", "1,0", "٣",
        "12345678901234567890", "+-3", "-+3", "++3", "3+", "\t3", "3\n", "0x1f", "١٢٣",
    ];
    for sample in samples {
        assert_eq!(parse_i32(sample), sample.parse::<i32>().ok(), "{:?}", sample);
    }
}

#[test]
fn format_writes_decimal_digits() {
    assert_eq!(format_i32(0), "0");
    assert_eq!(format_i32(7), "7");
    assert_eq!(format_i32(10), "10");
    assert_eq!(format_i32(2022), "2022");
    assert_eq!(format_i32(-1), "-1");
    assert_eq!(format_i32(-2022), "-2022");
    assert_eq!(format_i32(i32::MAX), "2147483647");
    assert_eq!(format_i32(i32::MIN), "-2147483648");
}

#[test]
fn format_agrees_with_the_standard_formatter() {
    let samples = [
        0,
        1,
        -1,
        9,
        10,
        11,
        99,
        100,
        101,
        -9,
        -10,
        -100,
        1970,
        2015,
        2022,
        9999,
        10000,
        123456789,
        -123456789,
        i32::MAX,
        i32::MIN,
        i32::MAX - 1,
        i32::MIN + 1,
    ];
    for sample in samples {
        assert_eq!(format_i32(sample), format!("{}", sample));
    }
}

#[test]
fn push_natural_appends_to_what_is_there() {
    let mut text = String::from("status ");
    push_natural(&mut text, 404);
    assert_eq!(text, "status 404");
    push_natural(&mut text, 0);
    assert_eq!(text, "status 4040");
    push_natural(&mut text, u32::MAX);
    assert_eq!(text, "status 40404294967295");
}

#[test]
fn parse_reads_back_what_format_wrote() {
    let samples = [
        0,
        5,
        -5,
        42,
        2022,
        -2022,
        1000000,
        i32::MAX,
        i32::MIN,
    ];
    for sample in samples {
        assert_eq!(parse_i32(&format_i32(sample)), Some(sample));
    }
}
