use zscm::text::{parse_i32, push_decimal, push_signed_decimal, chars_of, string_of_char, string_of_pair};

#[test]
fn parse_plain_numbers() {
    assert_eq!(parse_i32("12"), Some(12));
    assert_eq!(parse_i32("0"), Some(0));
    assert_eq!(parse_i32("007"), Some(7));
}

#[test]
fn parse_signed_numbers() {
    assert_eq!(parse_i32("-5"), Some(-5));
    assert_eq!(parse_i32("+7"), Some(7));
    assert_eq!(parse_i32("-2147483648"), Some(i32::MIN));
    assert_eq!(parse_i32("2147483647"), Some(i32::MAX));
}

#[test]
fn parse_refuses_what_str_parse_refuses() {
    for s in ["", "-", "+", "1,2", " 1", "1 ", "2147483648", "-2147483649", "99999999999999999999", "1a", "--1"] {
        assert_eq!(parse_i32(s), None, "{}", s);
        assert!(s.parse::<i32>().is_err());
    }
}

#[test]
fn parse_agrees_with_str_parse() {
    for s in ["42", "-42", "+0", "-0", "2147483647", "-2147483648", "12x", "x12", "0000000000001"] {
        assert_eq!(parse_i32(s), s.parse::<i32>().ok(), "{}", s);
    }
}

#[test]
fn decimals_are_written_as_format_writes_them() {
    for n in [0u64, 7, 10, 99, 100, 12345, u64::MAX] {
        let mut s = String::from("x");
        push_decimal(&mut s, n);
        assert_eq!(s, format!("x{}", n));
    }
    for n in [0i64, -1, 5, -12345, i64::MIN, i64::MAX] {
        let mut s = String::new();
        push_signed_decimal(&mut s, n);
        assert_eq!(s, format!("{}", n));
    }
}

#[test]
fn characters_and_short_strings() {
    assert_eq!(chars_of("a中b"), vec!['a', '中', 'b']);
    assert_eq!(string_of_char('中'), "中");
    assert_eq!(string_of_pair('可', '以'), "可以");
}
