use mcm_api_wrapper::text::decimal;
use mcm_api_wrapper::text::parse_u64;
use mcm_api_wrapper::text::str_eq;

#[test]
fn equal_strings_are_equal() {
    assert!(str_eq("", ""));
    assert!(str_eq("success", "success"));
    assert!(str_eq("grüß", "grüß"));
}

#[test]
fn different_strings_are_different() {
    assert!(!str_eq("success", "succes"));
    assert!(!str_eq("success", "Success"));
    assert!(!str_eq("", " "));
    assert!(!str_eq("é", "e"));
}

#[test]
fn parse_reads_plain_digits() {
    assert_eq!(parse_u64("0"), Some(0));
    assert_eq!(parse_u64("2"), Some(2));
    assert_eq!(parse_u64("120"), Some(120));
    assert_eq!(parse_u64("007"), Some(7));
}

#[test]
fn parse_takes_a_leading_plus() {
    assert_eq!(parse_u64("+5"), Some(5));
    assert_eq!(parse_u64("+"), None);
    assert_eq!(parse_u64("++5"), None);
}

#[test]
fn parse_refuses_what_is_no_number() {
    assert_eq!(parse_u64(""), None);
    assert_eq!(parse_u64(" 5"), None);
    assert_eq!(parse_u64("5 "), None);
    assert_eq!(parse_u64("-5"), None);
    assert_eq!(parse_u64("5.0"), None);
    assert_eq!(parse_u64("12a"), None);
    assert_eq!(parse_u64("Wed, 21 Oct 2015 07:28:00 GMT"), None);
    assert_eq!(parse_u64("٣"), None);
}

#[test]
fn parse_reads_up_to_the_largest_number() {
    assert_eq!(parse_u64("18446744073709551615"), Some(u64::MAX));
    assert_eq!(parse_u64("18446744073709551616"), None);
    assert_eq!(parse_u64("99999999999999999999"), None);
    assert_eq!(parse_u64("000018446744073709551615"), Some(u64::MAX));
}

#[test]
fn parse_agrees_with_the_standard_library() {
    let texts = ["", "+", "0", "+0", "-0", "42", "+42", "4 2", "18446744073709551615", "18446744073709551616", "1e3", "0x10"];
    for text in texts {
        assert_eq!(parse_u64(text), text.parse::<u64>().ok());
    }
}

#[test]
fn decimal_writes_numbers() {
    assert_eq!(decimal(0), "0");
    assert_eq!(decimal(7), "7");
    assert_eq!(decimal(10), "10");
    assert_eq!(decimal(16682), "16682");
    assert_eq!(decimal(u64::MAX), "18446744073709551615");
}

#[test]
fn decimal_and_parse_undo_each_other() {
    let numbers: [u64; 6] = [0, 9, 10, 999, 1_000_000_007, u64::MAX];
    for n in numbers {
        assert_eq!(parse_u64(decimal(n).as_str()), Some(n));
    }
}
