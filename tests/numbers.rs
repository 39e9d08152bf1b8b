use upaste::error::PasteError;
use upaste::options::{parse_line_count, parse_start, parse_ttl};
use upaste::text::{has_prefix, parse_decimal, trim_quotes};

fn invalid(r: Result<usize, PasteError>) -> (String, String) {
    match r {
        Err(PasteError::InvalidParameter { name, value }) => (name, value),
        other => panic!("expected an invalid parameter, got {:?}", other),
    }
}

#[test]
fn start_defaults_to_the_first_line() {
    assert_eq!(parse_start(None).unwrap(), 1);
    assert_eq!(parse_start(Some("7")).unwrap(), 7);
    assert_eq!(parse_start(Some("+7")).unwrap(), 7);
}

#[test]
fn start_zero_or_text_is_invalid() {
    assert_eq!(invalid(parse_start(Some("0"))), ("start".to_string(), "0".to_string()));
    assert_eq!(invalid(parse_start(Some("ten"))), ("start".to_string(), "ten".to_string()));
    assert_eq!(invalid(parse_start(Some(""))), ("start".to_string(), "".to_string()));
    assert_eq!(invalid(parse_start(Some("-1"))), ("start".to_string(), "-1".to_string()));
}

#[test]
fn line_count_parses_or_names_the_flag() {
    assert_eq!(parse_line_count(None).unwrap(), None);
    assert_eq!(parse_line_count(Some("0")).unwrap(), Some(0));
    assert_eq!(parse_line_count(Some("12")).unwrap(), Some(12));
    match parse_line_count(Some("1x")) {
        Err(PasteError::InvalidParameter { name, value }) => {
            assert_eq!(name, "lines");
            assert_eq!(value, "1x");
        }
        other => panic!("expected an invalid parameter, got {:?}", other),
    }
}

#[test]
fn ttl_must_fit_in_thirty_two_bits() {
    assert_eq!(parse_ttl(None).unwrap(), None);
    assert_eq!(parse_ttl(Some("3600")).unwrap(), Some(3600));
    assert_eq!(parse_ttl(Some("4294967295")).unwrap(), Some(u32::MAX));
    assert!(matches!(
        parse_ttl(Some("4294967296")),
        Err(PasteError::InvalidParameter { .. })
    ));
}

#[test]
fn decimal_respects_the_limit() {
    assert_eq!(parse_decimal("255", 255), Some(255));
    assert_eq!(parse_decimal("256", 255), None);
    assert_eq!(parse_decimal("18446744073709551615", u64::MAX), Some(u64::MAX));
    assert_eq!(parse_decimal("18446744073709551616", u64::MAX), None);
    assert_eq!(parse_decimal("+", 10), None);
    assert_eq!(parse_decimal("007", 10), Some(7));
}

#[test]
fn prefix_and_quote_trimming() {
    assert!(has_prefix("https://paste.rs/abc", "https://paste.rs"));
    assert!(!has_prefix("https://paste.r", "https://paste.rs"));
    assert!(!has_prefix("http://paste.rs", "https://paste.rs"));
    assert_eq!(trim_quotes("\"abc\""), "abc");
    assert_eq!(trim_quotes("\"\"a\"b\""), "a\"b");
    assert_eq!(trim_quotes("\"\"\""), "");
    assert_eq!(trim_quotes("plain"), "plain");
}
