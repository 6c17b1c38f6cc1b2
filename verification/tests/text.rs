use lightsync::text;
use lightsync::text::{
    decimal, eq_ignore_ascii_case, is_blank, parse_unsigned, str_eq, str_less, trim,
    NumberProblem,
};

#[test]
fn white_space_is_trimmed_as_unicode_defines_it() {
    assert_eq!(trim(" \t\u{a0}a b\u{2003}\n"), "a b");
    assert_eq!(trim("\u{3000}"), "");
    assert!(is_blank(" \u{85}"));
    assert!(!is_blank("\u{200b}"));
}

#[test]
fn texts_are_compared() {
    assert!(str_eq("ab", "ab"));
    assert!(!str_eq("ab", "aB"));
    assert!(eq_ignore_ascii_case("aB\u{e4}", "Ab\u{e4}"));
    assert!(!eq_ignore_ascii_case("\u{e4}", "\u{c4}"));
    assert!(str_less("a", "b"));
    assert!(str_less("a", "aa"));
    assert!(!str_less("b", "a"));
    assert!(!str_less("a", "a"));
}

#[test]
fn numbers_are_written_and_read() {
    assert_eq!(decimal(0), "0");
    assert_eq!(decimal(u64::MAX), "18446744073709551615");
    assert_eq!(parse_unsigned(b"255", 255), Ok(255));
    assert_eq!(parse_unsigned(b"+0007", 255), Ok(7));
    assert_eq!(
        parse_unsigned(b"18446744073709551615", u64::MAX),
        Ok(u64::MAX)
    );
    assert_eq!(
        parse_unsigned(b"18446744073709551616", u64::MAX),
        Err(NumberProblem::TooLarge)
    );
    assert_eq!(parse_unsigned(b"256", 255), Err(NumberProblem::TooLarge));
    assert_eq!(parse_unsigned(b"", 255), Err(NumberProblem::Empty));
    assert_eq!(parse_unsigned(b"-1", 255), Err(NumberProblem::InvalidDigit));
    assert_eq!(parse_unsigned(b"+", 255), Err(NumberProblem::InvalidDigit));
    assert_eq!(text::concat("a", "b"), "ab");
    assert_eq!(text::concat3("a", "b", "c"), "abc");
}
