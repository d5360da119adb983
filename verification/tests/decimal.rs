use weather_station::decimal::{format_decimal, parse_decimal};

#[test]
fn format_zero() {
    assert_eq!(format_decimal(0), b"0".to_vec());
}

#[test]
fn format_single_digit() {
    assert_eq!(format_decimal(7), b"7".to_vec());
}

#[test]
fn format_round_numbers() {
    assert_eq!(format_decimal(10), b"10".to_vec());
    assert_eq!(format_decimal(1000), b"1000".to_vec());
}

#[test]
fn format_largest() {
    assert_eq!(format_decimal(u32::MAX), b"4294967295".to_vec());
}

#[test]
fn format_deadbeef() {
    assert_eq!(format_decimal(0xDEAD_BEEF), b"3735928559".to_vec());
}

#[test]
fn format_agrees_with_std() {
    for value in [0u32, 1, 9, 10, 99, 100, 65_535, 65_536, 1_000_000_007, u32::MAX - 1] {
        assert_eq!(format_decimal(value), value.to_string().into_bytes());
    }
}

#[test]
fn parse_plain_number() {
    assert_eq!(parse_decimal(b"3735928559"), Some(0xDEAD_BEEF));
}

#[test]
fn parse_zero() {
    assert_eq!(parse_decimal(b"0"), Some(0));
}

#[test]
fn parse_takes_a_plus_sign() {
    assert_eq!(parse_decimal(b"+42"), Some(42));
}

#[test]
fn parse_takes_leading_zeros() {
    assert_eq!(parse_decimal(b"000000000000000000042"), Some(42));
}

#[test]
fn parse_largest() {
    assert_eq!(parse_decimal(b"4294967295"), Some(u32::MAX));
}

#[test]
fn parse_refuses_overflow() {
    assert_eq!(parse_decimal(b"4294967296"), None);
    assert_eq!(parse_decimal(b"99999999999999999999999999"), None);
}

#[test]
fn parse_refuses_empty() {
    assert_eq!(parse_decimal(b""), None);
}

#[test]
fn parse_refuses_lone_sign() {
    assert_eq!(parse_decimal(b"+"), None);
}

#[test]
fn parse_refuses_minus() {
    assert_eq!(parse_decimal(b"-1"), None);
    assert_eq!(parse_decimal(b"-0"), None);
}

#[test]
fn parse_refuses_two_signs() {
    assert_eq!(parse_decimal(b"++1"), None);
}

#[test]
fn parse_refuses_whitespace_and_letters() {
    assert_eq!(parse_decimal(b" 1"), None);
    assert_eq!(parse_decimal(b"1 "), None);
    assert_eq!(parse_decimal(b"12a"), None);
    assert_eq!(parse_decimal(b"0x10"), None);
    assert_eq!(parse_decimal(b"1_000"), None);
}

#[test]
fn parse_refuses_bytes_outside_ascii() {
    assert_eq!(parse_decimal("１２".as_bytes()), None);
    assert_eq!(parse_decimal(&[0x31, 0xff]), None);
}

#[test]
fn parse_agrees_with_std() {
    for text in ["", "+", "0", "+0", "007", "4294967295", "4294967296", "-3", "1e3", "12 ", "٣"] {
        assert_eq!(parse_decimal(text.as_bytes()), text.parse::<u32>().ok(), "{:?}", text);
    }
}

#[test]
fn parse_reads_back_what_format_wrote() {
    for value in [0u32, 1, 10, 4096, 0xDEAD_BEEF, u32::MAX] {
        assert_eq!(parse_decimal(&format_decimal(value)), Some(value));
    }
}
