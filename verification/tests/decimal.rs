use razer_control::decimal::format_i32;
use razer_control::decimal::format_u8;
use razer_control::decimal::parse_i32;
use razer_control::decimal::parse_u8;
use razer_control::decimal::trimmed_len;

#[test]
fn format_u8_gives_decimal_digits() {
    assert_eq!(format_u8(0), b"0".to_vec());
    assert_eq!(format_u8(7), b"7".to_vec());
    assert_eq!(format_u8(50), b"50".to_vec());
    assert_eq!(format_u8(100), b"100".to_vec());
    assert_eq!(format_u8(255), b"255".to_vec());
}

#[test]
fn format_u8_agrees_with_std_for_every_value() {
    for v in 0..=255u8 {
        assert_eq!(format_u8(v), format!("{}", v).into_bytes());
    }
}

#[test]
fn format_i32_gives_sign_and_digits() {
    assert_eq!(format_i32(0), b"0".to_vec());
    assert_eq!(format_i32(5000), b"5000".to_vec());
    assert_eq!(format_i32(-1), b"-1".to_vec());
    assert_eq!(format_i32(i32::MAX), b"2147483647".to_vec());
    assert_eq!(format_i32(i32::MIN), b"-2147483648".to_vec());
}

#[test]
fn parse_u8_reads_digits_and_plus() {
    assert_eq!(parse_u8(b"0"), Some(0));
    assert_eq!(parse_u8(b"50"), Some(50));
    assert_eq!(parse_u8(b"255"), Some(255));
    assert_eq!(parse_u8(b"+5"), Some(5));
    assert_eq!(parse_u8(b"007"), Some(7));
    assert_eq!(parse_u8(b"0000000000000000000000255"), Some(255));
}

#[test]
fn parse_u8_refuses_what_is_no_u8() {
    assert_eq!(parse_u8(b""), None);
    assert_eq!(parse_u8(b"+"), None);
    assert_eq!(parse_u8(b"-"), None);
    assert_eq!(parse_u8(b"-0"), None);
    assert_eq!(parse_u8(b"-5"), None);
    assert_eq!(parse_u8(b"256"), None);
    assert_eq!(parse_u8(b"99999999999999999999999999"), None);
    assert_eq!(parse_u8(b"5 "), None);
    assert_eq!(parse_u8(b" 5"), None);
    assert_eq!(parse_u8(b"5\n"), None);
    assert_eq!(parse_u8(b"1a"), None);
    assert_eq!(parse_u8(b"++1"), None);
    assert_eq!(parse_u8(b"0x10"), None);
}

#[test]
fn parse_u8_agrees_with_std() {
    let texts: [&str; 12] =
        ["", "+", "-", "0", "+0", "-0", "12", "255", "256", "0255", "1_0", "٣"];
    for text in texts {
        assert_eq!(parse_u8(text.as_bytes()), text.parse::<u8>().ok(), "{:?}", text);
    }
}

#[test]
fn parse_i32_reads_both_signs() {
    assert_eq!(parse_i32(b"0"), Some(0));
    assert_eq!(parse_i32(b"-0"), Some(0));
    assert_eq!(parse_i32(b"+12"), Some(12));
    assert_eq!(parse_i32(b"-12"), Some(-12));
    assert_eq!(parse_i32(b"5000"), Some(5000));
    assert_eq!(parse_i32(b"2147483647"), Some(i32::MAX));
    assert_eq!(parse_i32(b"-2147483648"), Some(i32::MIN));
}

#[test]
fn parse_i32_refuses_what_is_no_i32() {
    assert_eq!(parse_i32(b""), None);
    assert_eq!(parse_i32(b"-"), None);
    assert_eq!(parse_i32(b"+"), None);
    assert_eq!(parse_i32(b"+-1"), None);
    assert_eq!(parse_i32(b"--1"), None);
    assert_eq!(parse_i32(b"2147483648"), None);
    assert_eq!(parse_i32(b"-2147483649"), None);
    assert_eq!(parse_i32(b"12.5"), None);
}

#[test]
fn parse_i32_agrees_with_std() {
    let texts: [&str; 10] =
        ["", "-", "+7", "-7", "-0", "2147483647", "2147483648", "-2147483648", "-2147483649", "1e3"];
    for text in texts {
        assert_eq!(parse_i32(text.as_bytes()), text.parse::<i32>().ok(), "{:?}", text);
    }
}

#[test]
fn what_is_formatted_is_parsed_back() {
    for v in 0..=255u8 {
        assert_eq!(parse_u8(&format_u8(v)), Some(v));
    }
    for v in [i32::MIN, -5000, -1, 0, 1, 4400, i32::MAX] {
        assert_eq!(parse_i32(&format_i32(v)), Some(v));
    }
}

#[test]
fn trimmed_len_drops_every_trailing_line_feed() {
    assert_eq!(trimmed_len(b""), 0);
    assert_eq!(trimmed_len(b"\n"), 0);
    assert_eq!(trimmed_len(b"50"), 2);
    assert_eq!(trimmed_len(b"50\n"), 2);
    assert_eq!(trimmed_len(b"50\n\n\n"), 2);
    assert_eq!(trimmed_len(b"5\n0\n"), 3);
    assert_eq!(trimmed_len(b"\n50"), 3);
    assert_eq!(trimmed_len(b"50\r\n"), 3);
}
