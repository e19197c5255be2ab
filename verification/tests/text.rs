use srun_client::srun::text::{
    chars_of, hex_lower, parse_decimal, push_decimal, same_text, string_of,
};

#[test]
fn hex_is_lowercase_with_two_digits_per_byte() {
    assert_eq!(hex_lower(&[0x00, 0x0f, 0xa5, 0xff]), "000fa5ff");
    assert_eq!(hex_lower(&[]), "");
}

#[test]
fn decimal_strings_are_read() {
    assert_eq!(parse_decimal("0"), Some(0));
    assert_eq!(parse_decimal("42"), Some(42));
    assert_eq!(parse_decimal("007"), Some(7));
    assert_eq!(parse_decimal("18446744073709551615"), Some(u64::MAX));
}

#[test]
fn what_is_no_decimal_string_is_refused() {
    assert_eq!(parse_decimal(""), None);
    assert_eq!(parse_decimal("+1"), None);
    assert_eq!(parse_decimal("-1"), None);
    assert_eq!(parse_decimal("1 "), None);
    assert_eq!(parse_decimal("1.0"), None);
    assert_eq!(parse_decimal("E2901"), None);
    assert_eq!(parse_decimal("\u{661}"), None);
    assert_eq!(parse_decimal("18446744073709551616"), None);
    assert_eq!(parse_decimal("99999999999999999999999"), None);
}

#[test]
fn numbers_are_written_in_decimal() {
    let mut s = String::from("n=");
    push_decimal(&mut s, 0);
    s.push(',');
    push_decimal(&mut s, 500);
    s.push(',');
    push_decimal(&mut s, u64::MAX);
    assert_eq!(s, "n=0,500,18446744073709551615");
}

#[test]
fn decimal_round_trip() {
    for n in [0u64, 9, 10, 99, 100, 12345, u64::MAX] {
        let mut s = String::new();
        push_decimal(&mut s, n);
        assert_eq!(parse_decimal(&s), Some(n));
    }
}

#[test]
fn characters_in_and_out() {
    let chars = chars_of("h\u{e9}llo");
    assert_eq!(chars, vec!['h', '\u{e9}', 'l', 'l', 'o']);
    assert_eq!(string_of(&chars, 1, 4), "\u{e9}ll");
    assert_eq!(string_of(&chars, 2, 2), "");
}

#[test]
fn same_text_compares_whole_texts() {
    assert!(same_text("json", "json"));
    assert!(!same_text("json", "JSON"));
    assert!(!same_text("json", "jso"));
    assert!(same_text("", ""));
}
