use bookshelf::clock::get_current_time_string;
use bookshelf::text::parse_dec_i64;
use bookshelf::text::u64_to_dec_string;

#[test]
fn formats_exact_numerals() {
    assert_eq!(u64_to_dec_string(0), "0");
    assert_eq!(u64_to_dec_string(7), "7");
    assert_eq!(u64_to_dec_string(10), "10");
    assert_eq!(u64_to_dec_string(1234567890), "1234567890");
    assert_eq!(u64_to_dec_string(u64::MAX), "18446744073709551615");
}

#[test]
fn parses_digit_strings() {
    assert_eq!(parse_dec_i64("0"), Some(0));
    assert_eq!(parse_dec_i64("1"), Some(1));
    assert_eq!(parse_dec_i64("001"), Some(1));
    assert_eq!(parse_dec_i64("9223372036854775807"), Some(i64::MAX));
}

#[test]
fn rejects_text_no_id_bears() {
    assert_eq!(parse_dec_i64(""), None);
    assert_eq!(parse_dec_i64("12a"), None);
    assert_eq!(parse_dec_i64("-1"), None);
    assert_eq!(parse_dec_i64(" 1"), None);
    assert_eq!(parse_dec_i64("9223372036854775808"), None);
    assert_eq!(parse_dec_i64("99999999999999999999999999"), None);
}

#[test]
fn time_string_is_a_plain_numeral() {
    let now = get_current_time_string();
    assert!(!now.is_empty());
    assert!(now.chars().all(|c| c.is_ascii_digit()));
    // No sign, and no leading zero unless the numeral is "0" itself.
    if now.len() > 1 {
        assert!(!now.starts_with('0'));
    }
}
