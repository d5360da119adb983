use weather_station::header::header_checksum;
use weather_station::text::is_white_space;

#[test]
fn white_space_is_what_std_calls_whitespace() {
    for code in 0..=0x10_ffffu32 {
        if let Some(c) = char::from_u32(code) {
            assert_eq!(is_white_space(c), c.is_whitespace(), "U+{:04X}", code);
        }
    }
}

#[test]
fn white_space_characters() {
    for c in [' ', '\t', '\n', '\r', '\u{b}', '\u{c}', '\u{85}', '\u{a0}', '\u{1680}', '\u{2000}'] {
        assert!(is_white_space(c));
    }
    for c in ['\u{200a}', '\u{2028}', '\u{2029}', '\u{202f}', '\u{205f}', '\u{3000}'] {
        assert!(is_white_space(c));
    }
}

#[test]
fn characters_that_are_no_white_space() {
    for c in ['0', 'a', '+', '\0', '\u{8}', '\u{e}', '\u{1f}', '\u{200b}', '\u{180e}', '\u{feff}'] {
        assert!(!is_white_space(c));
    }
}

#[test]
fn every_white_space_character_is_dropped_around_a_number() {
    for code in 0..=0x10_ffffu32 {
        if let Some(c) = char::from_u32(code) {
            if c.is_ascii_digit() || c == '+' {
                continue;
            }
            let value = format!("{}7{}", c, c);
            let expected = if is_white_space(c) { Some(7) } else { None };
            assert_eq!(header_checksum(value.as_bytes()), expected, "U+{:04X}", code);
        }
    }
}
