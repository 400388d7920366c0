use scrollr::number::{
    decimal_text, parse_i32, parse_u16, parse_u32, signed_decimal_text, IntError,
};
use scrollr::text::{
    chars_of, contains, find_from, same, same_lowered, split_once, strip_prefix, strip_suffix,
};

#[test]
fn search_agrees_with_std() {
    let cases = [
        ("", ""),
        ("", "a"),
        ("a", ""),
        ("abcabc", "bc"),
        ("abcabc", "cb"),
        ("aaab", "aab"),
        ("grüße, grüße", "ße"),
        ("grüße", "grüße!"),
    ];
    for (hay, needle) in cases {
        assert_eq!(contains(hay, needle), hay.contains(needle));
        assert_eq!(split_once(hay, needle), hay.split_once(needle));
        assert_eq!(strip_prefix(hay, needle), hay.strip_prefix(needle));
        assert_eq!(strip_suffix(hay, needle), hay.strip_suffix(needle));
        assert_eq!(same(hay, needle), hay == needle);
    }
}

#[test]
fn find_from_counts_characters() {
    let hay = chars_of("ä;b;c");
    let needle = chars_of(";");
    assert_eq!(find_from(&hay, &needle, 0), Some(1));
    assert_eq!(find_from(&hay, &needle, 2), Some(3));
    assert_eq!(find_from(&hay, &needle, 4), None);
    assert_eq!(find_from(&hay, &needle, 5), None);
    assert_eq!(find_from(&hay, &chars_of(""), 5), Some(5));
}

#[test]
fn split_parts_rejoin() {
    let (before, after) = split_once("key=value=more", "=").unwrap();
    assert_eq!((before, after), ("key", "value=more"));
    assert_eq!(format!("{}={}", before, after), "key=value=more");
}

#[test]
fn lowering_agrees_with_std() {
    for text in ["true", "TRUE", "TrUe", "true ", "falsE", "", "ẗrue", "TRUE\u{212a}", "Tṙue"] {
        assert_eq!(same_lowered(text, "true"), text.to_lowercase() == "true");
    }
}

#[test]
fn decimal_agrees_with_std() {
    for n in [0u64, 7, 9, 10, 11, 99, 100, 1000, 4294967296, u64::MAX] {
        assert_eq!(decimal_text(n), n.to_string());
    }
    for n in [0i64, 1, -1, -10, 1234567890, i64::MAX, i64::MIN] {
        assert_eq!(signed_decimal_text(n), n.to_string());
    }
}

#[test]
fn parsing_agrees_with_std() {
    let texts = [
        "", "+", "-", "0", "-0", "+0", "7", "+7", "-7", "007", "65535", "65536", "2147483647",
        "2147483648", "-2147483648", "-2147483649", "4294967295", "4294967296",
        "99999999999999999999", "-99999999999999999999", "12a", "a12", "99999999999999999999a",
        " 1", "1 ", "--1", "+-1", "1.5", "-/-", "\u{0661}", "214748364a", "2147483640a",
    ];
    for text in texts {
        let words = |e: IntError| e.message();
        assert_eq!(parse_i32(text).map_err(words), text.parse::<i32>().map_err(|e| e.to_string()));
        assert_eq!(parse_u32(text).map_err(words), text.parse::<u32>().map_err(|e| e.to_string()));
        assert_eq!(parse_u16(text).map_err(words), text.parse::<u16>().map_err(|e| e.to_string()));
    }
}

#[test]
fn every_number_error_has_an_input() {
    assert_eq!(parse_i32(""), Err(IntError::Empty));
    assert_eq!(parse_i32("x"), Err(IntError::InvalidDigit));
    assert_eq!(parse_i32("2147483648"), Err(IntError::TooLarge));
    assert_eq!(parse_i32("-2147483649"), Err(IntError::TooSmall));
}

#[test]
fn written_numbers_read_back() {
    for n in [0, 5, -5, 1000, i32::MAX, i32::MIN] {
        assert_eq!(parse_i32(&signed_decimal_text(n as i64)), Ok(n));
    }
}
