use broadcast_relay::decimal::{parse_i64, render_i64};
use broadcast_relay::text::same_text;

#[test]
fn renders_zero_and_small_values() {
    assert_eq!(render_i64(0), "0");
    assert_eq!(render_i64(7), "7");
    assert_eq!(render_i64(10), "10");
    assert_eq!(render_i64(42), "42");
    assert_eq!(render_i64(3000), "3000");
    assert_eq!(render_i64(-1), "-1");
    assert_eq!(render_i64(-100), "-100");
}

#[test]
fn renders_the_ends_of_the_range() {
    assert_eq!(render_i64(i64::MAX), "9223372036854775807");
    assert_eq!(render_i64(i64::MIN), "-9223372036854775808");
    assert_eq!(render_i64(i64::MIN + 1), "-9223372036854775807");
}

#[test]
fn renders_like_the_standard_formatter() {
    let mut value: i64 = 1;
    for _ in 0..62 {
        assert_eq!(render_i64(value), value.to_string());
        assert_eq!(render_i64(-value), (-value).to_string());
        assert_eq!(render_i64(value - 1), (value - 1).to_string());
        value *= 2;
    }
    for value in [-1001234567890i64, 61031, 999, 1000, 1001, -999, -1000] {
        assert_eq!(render_i64(value), format!("{}", value));
    }
}

#[test]
fn parses_plain_digits() {
    assert_eq!(parse_i64("0"), Some(0));
    assert_eq!(parse_i64("42"), Some(42));
    assert_eq!(parse_i64("3000"), Some(3000));
    assert_eq!(parse_i64("61031"), Some(61031));
}

#[test]
fn parses_signs() {
    assert_eq!(parse_i64("-42"), Some(-42));
    assert_eq!(parse_i64("+42"), Some(42));
    assert_eq!(parse_i64("-0"), Some(0));
    assert_eq!(parse_i64("+0"), Some(0));
    assert_eq!(parse_i64("-1001234567890"), Some(-1001234567890));
}

#[test]
fn parses_leading_zeros() {
    assert_eq!(parse_i64("007"), Some(7));
    assert_eq!(parse_i64("-007"), Some(-7));
    assert_eq!(parse_i64("0000000000000000000000000000000000000012"), Some(12));
}

#[test]
fn parses_the_ends_of_the_range() {
    assert_eq!(parse_i64("9223372036854775807"), Some(i64::MAX));
    assert_eq!(parse_i64("+9223372036854775807"), Some(i64::MAX));
    assert_eq!(parse_i64("-9223372036854775808"), Some(i64::MIN));
    assert_eq!(parse_i64("-9223372036854775807"), Some(i64::MIN + 1));
}

#[test]
fn rejects_values_out_of_range() {
    assert_eq!(parse_i64("9223372036854775808"), None);
    assert_eq!(parse_i64("-9223372036854775809"), None);
    assert_eq!(parse_i64("10000000000000000000"), None);
    assert_eq!(parse_i64("18446744073709551616"), None);
    assert_eq!(parse_i64("99999999999999999999999999999999999999999"), None);
    assert_eq!(parse_i64("-99999999999999999999999999999999999999999"), None);
}

#[test]
fn rejects_text_without_digits() {
    assert_eq!(parse_i64(""), None);
    assert_eq!(parse_i64("-"), None);
    assert_eq!(parse_i64("+"), None);
    assert_eq!(parse_i64("--1"), None);
    assert_eq!(parse_i64("+-1"), None);
    assert_eq!(parse_i64("not-a-number"), None);
}

#[test]
fn rejects_anything_beside_digits() {
    assert_eq!(parse_i64(" 5"), None);
    assert_eq!(parse_i64("5 "), None);
    assert_eq!(parse_i64("5\n"), None);
    assert_eq!(parse_i64("1_000"), None);
    assert_eq!(parse_i64("1,000"), None);
    assert_eq!(parse_i64("1.0"), None);
    assert_eq!(parse_i64("0x10"), None);
    assert_eq!(parse_i64("12a"), None);
    assert_eq!(parse_i64("1-2"), None);
    assert_eq!(parse_i64("4+"), None);
    assert_eq!(parse_i64("\u{ff11}\u{ff12}"), None);
    assert_eq!(parse_i64("\u{0661}"), None);
    assert_eq!(parse_i64("99999999999999999999x"), None);
}

#[test]
fn parses_like_the_standard_parser() {
    let samples = [
        "", "0", "-0", "+0", "1", "-1", "+1", "42", "0042", "-", "+", "++1", "1+", " 1", "1 ",
        "abc", "12abc", "not-a-number", "9223372036854775807", "9223372036854775808",
        "-9223372036854775808", "-9223372036854775809", "000000000000000000000000001",
        "1e3", "٣", "１", "-x", "+x", "5-", "1\t",
    ];
    for sample in samples {
        assert_eq!(parse_i64(sample), sample.parse::<i64>().ok(), "on {:?}", sample);
    }
}

#[test]
fn reading_what_was_written_gives_the_value_back() {
    let mut value: i64 = 1;
    for _ in 0..62 {
        for candidate in [value, -value, value - 1, 1 - value] {
            assert_eq!(parse_i64(&render_i64(candidate)), Some(candidate));
        }
        value *= 2;
    }
    for candidate in [0, i64::MAX, i64::MIN, 42, -42] {
        assert_eq!(parse_i64(&render_i64(candidate)), Some(candidate));
    }
}

#[test]
fn same_text_compares_character_by_character() {
    assert!(same_text("", ""));
    assert!(same_text("/start", "/start"));
    assert!(!same_text("/start", "/start "));
    assert!(!same_text("/start", "/star"));
    assert!(!same_text("", "a"));
    assert!(!same_text("a", ""));
    assert!(!same_text("/Start", "/start"));
    assert!(same_text("gr\u{fc}\u{df}e", "gr\u{fc}\u{df}e"));
    assert!(!same_text("gr\u{fc}\u{df}e", "gru\u{df}e"));
}

#[test]
fn different_values_render_differently() {
    let values = [i64::MIN, -10, -1, 0, 1, 10, 100, 101, i64::MAX];
    for (i, a) in values.iter().enumerate() {
        for (j, b) in values.iter().enumerate() {
            assert_eq!(render_i64(*a) == render_i64(*b), i == j);
        }
    }
}
