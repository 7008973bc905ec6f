use note_parser::decimal::{parse_i64, MAX_MAGNITUDE};

#[test]
fn plain_numbers() {
    assert_eq!(parse_i64("0"), Some(0));
    assert_eq!(parse_i64("7"), Some(7));
    assert_eq!(parse_i64("1689341301642"), Some(1689341301642));
    assert_eq!(parse_i64("000123"), Some(123));
}

#[test]
fn signed_numbers() {
    assert_eq!(parse_i64("+5"), Some(5));
    assert_eq!(parse_i64("-5"), Some(-5));
    assert_eq!(parse_i64("-0"), Some(0));
    assert_eq!(parse_i64("+0"), Some(0));
}

#[test]
fn the_ends_of_the_range() {
    assert_eq!(MAX_MAGNITUDE, 1u64 << 63);
    assert_eq!(parse_i64("9223372036854775807"), Some(i64::MAX));
    assert_eq!(parse_i64("+9223372036854775807"), Some(i64::MAX));
    assert_eq!(parse_i64("-9223372036854775808"), Some(i64::MIN));
    assert_eq!(parse_i64("-9223372036854775807"), Some(i64::MIN + 1));
    assert_eq!(parse_i64("9223372036854775808"), None);
    assert_eq!(parse_i64("-9223372036854775809"), None);
    assert_eq!(parse_i64("92233720368547758070"), None);
    assert_eq!(parse_i64("99999999999999999999999999999999"), None);
    assert_eq!(parse_i64("0000000000000000000000000000000000000001"), Some(1));
}

#[test]
fn what_is_no_number() {
    assert_eq!(parse_i64(""), None);
    assert_eq!(parse_i64("+"), None);
    assert_eq!(parse_i64("-"), None);
    assert_eq!(parse_i64("--1"), None);
    assert_eq!(parse_i64("+-1"), None);
    assert_eq!(parse_i64("1-"), None);
    assert_eq!(parse_i64(" 1"), None);
    assert_eq!(parse_i64("1 "), None);
    assert_eq!(parse_i64("1\r"), None);
    assert_eq!(parse_i64("1_000"), None);
    assert_eq!(parse_i64("12a"), None);
    assert_eq!(parse_i64("0x10"), None);
    assert_eq!(parse_i64("1.5"), None);
    assert_eq!(parse_i64("/"), None);
    assert_eq!(parse_i64(":"), None);
    assert_eq!(parse_i64("\u{661}\u{662}"), None);
    assert_eq!(parse_i64("1\u{e9}"), None);
    assert_eq!(parse_i64("\u{2212}1"), None);
}

#[test]
fn agrees_with_the_standard_library() {
    let texts = [
        "", "0", "-0", "+0", "1", "-1", "+1", "10", "0010", "-0010", "+", "-", "++1", "1+", "a",
        "1a", "a1", " 1", "1 ", "9223372036854775806", "9223372036854775807",
        "9223372036854775808", "-9223372036854775807", "-9223372036854775808",
        "-9223372036854775809", "18446744073709551615", "18446744073709551616",
        "1689341301642", "\u{663}", "12\u{a0}", "1e3", "٣", "१२",
    ];
    for text in texts {
        assert_eq!(parse_i64(text), text.parse::<i64>().ok(), "{:?}", text);
    }
}
