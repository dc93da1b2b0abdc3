use gameclockbone::text::{
    char_is_digit, char_is_space, decimal_string, parse_field, two_digit_string,
};

#[test]
fn field_with_digits_holds_their_number() {
    assert_eq!(parse_field("12", 255), Some(12));
    assert_eq!(parse_field("0", 255), Some(0));
    assert_eq!(parse_field("255", 255), Some(255));
    assert_eq!(parse_field("007", 255), Some(7));
    assert_eq!(parse_field("65535", 65535), Some(65535));
    assert_eq!(parse_field("18446744073709551615", u64::MAX), Some(u64::MAX));
    assert_eq!(parse_field("000000000000000000000000000012", 255), Some(12));
}

#[test]
fn field_with_anything_else_holds_no_number() {
    assert_eq!(parse_field("ab", 255), None);
    assert_eq!(parse_field("", 255), None);
    assert_eq!(parse_field("1a", 255), None);
    assert_eq!(parse_field("a1", 255), None);
    assert_eq!(parse_field("1 2", 255), None);
    assert_eq!(parse_field("-1", 255), None);
    assert_eq!(parse_field("-0", 255), None);
    assert_eq!(parse_field("1.5", 255), None);
    assert_eq!(parse_field("١٢", 255), None);
    assert_eq!(parse_field("0x10", 255), None);
}

#[test]
fn field_with_too_large_a_number_holds_none() {
    assert_eq!(parse_field("256", 255), None);
    assert_eq!(parse_field("1000", 255), None);
    assert_eq!(parse_field("65536", 65535), None);
    assert_eq!(parse_field("18446744073709551616", u64::MAX), None);
    assert_eq!(parse_field("99999999999999999999999999", u64::MAX), None);
    assert_eq!(parse_field("1", 0), None);
    assert_eq!(parse_field("0", 0), Some(0));
}

#[test]
fn field_takes_a_plus_sign_before_the_digits() {
    assert_eq!(parse_field("+12", 255), Some(12));
    assert_eq!(parse_field("+", 255), None);
    assert_eq!(parse_field("++1", 255), None);
    assert_eq!(parse_field("1+", 255), None);
    assert_eq!(parse_field("+ 1", 255), None);
}

#[test]
fn white_space_round_a_number_is_passed_over() {
    assert_eq!(parse_field(" 12", 255), Some(12));
    assert_eq!(parse_field("12 ", 255), Some(12));
    assert_eq!(parse_field(" \t\n12\r\n ", 255), Some(12));
    assert_eq!(parse_field("\u{3000}12\u{a0}", 255), Some(12));
    assert_eq!(parse_field(" +7 ", 255), Some(7));
    assert_eq!(parse_field("   ", 255), None);
    assert_eq!(parse_field(" ", 255), None);
    assert_eq!(parse_field("\u{200b}12", 255), None);
}

#[test]
fn field_reads_as_the_standard_library_does() {
    let samples = [
        "", " ", "0", "12", "+12", "-12", " 12 ", "255", "256", "ab", "1a", "007", "+", "++1",
        "\u{2003}9\u{2003}", "\u{85}5", "\u{1680}5", "\u{180e}5", "65535", "65536", "1_000",
        "\t+0\n", "٣", "12\u{0}",
    ];
    for text in samples {
        assert_eq!(parse_field(text, 255), text.trim().parse::<u8>().ok().map(u64::from));
        assert_eq!(parse_field(text, 65535), text.trim().parse::<u16>().ok().map(u64::from));
        assert_eq!(parse_field(text, u64::MAX), text.trim().parse::<u64>().ok());
    }
}

#[test]
fn white_space_is_what_the_standard_library_calls_white_space() {
    for code in 0..=0x11_0000u32 {
        if let Some(c) = char::from_u32(code) {
            assert_eq!(char_is_space(c), c.is_whitespace());
            assert_eq!(char_is_digit(c), c.is_ascii_digit());
        }
    }
}

#[test]
fn numbers_are_written_in_decimal() {
    assert_eq!(decimal_string(0), "0");
    assert_eq!(decimal_string(7), "7");
    assert_eq!(decimal_string(10), "10");
    assert_eq!(decimal_string(1365), "1365");
    assert_eq!(decimal_string(u128::MAX), "340282366920938463463374607431768211455");
    for n in [0u128, 9, 10, 99, 100, 12345, u64::MAX as u128] {
        assert_eq!(decimal_string(n), n.to_string());
    }
}

#[test]
fn two_digit_numbers_get_a_zero_in_front_when_short() {
    assert_eq!(two_digit_string(0), "00");
    assert_eq!(two_digit_string(9), "09");
    assert_eq!(two_digit_string(10), "10");
    assert_eq!(two_digit_string(59), "59");
    assert_eq!(two_digit_string(100), "100");
    for n in [0u128, 5, 10, 42, 99, 100, 123456] {
        assert_eq!(two_digit_string(n), format!("{:02}", n));
    }
}

#[test]
fn written_numbers_are_read_back() {
    for n in [0u64, 1, 9, 10, 255, 256, 65535, u64::MAX] {
        let text = decimal_string(n as u128);
        assert_eq!(parse_field(&text, u64::MAX), Some(n));
        assert_eq!(parse_field(&text, 255), if n <= 255 { Some(n) } else { None });
    }
}
