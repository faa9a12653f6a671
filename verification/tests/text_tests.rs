use runtime::text::{
    chars_eq, chars_of, find_chars_from, i64_decimal, index_of_char_from, last_index_of_char,
    parse_i32_chars, parse_i64_chars, parse_u32_chars, parse_usize_chars, remove_char_chars,
    trim_chars, trimmed, u64_decimal,
};

fn s(chars: Vec<char>) -> String {
    chars.into_iter().collect()
}

#[test]
fn chars_round_trip() {
    let cs = chars_of("héllo");
    assert_eq!(cs.len(), 5);
    assert_eq!(s(cs), "héllo");
}

#[test]
fn trimming_removes_unicode_whitespace() {
    assert_eq!(s(trimmed("  \t abc \n")), "abc");
    assert_eq!(s(trimmed("\u{3000}x y\u{a0}")), "x y");
    assert_eq!(s(trim_chars(&chars_of("   "))), "");
}

#[test]
fn parse_numbers_like_std() {
    assert_eq!(parse_i64_chars(&chars_of("123")), Some(123));
    assert_eq!(parse_i64_chars(&chars_of("-5")), Some(-5));
    assert_eq!(parse_i64_chars(&chars_of("+7")), Some(7));
    assert_eq!(parse_i64_chars(&chars_of("")), None);
    assert_eq!(parse_i64_chars(&chars_of("-")), None);
    assert_eq!(parse_i64_chars(&chars_of("1 2")), None);
    assert_eq!(parse_i64_chars(&chars_of("9223372036854775807")), Some(i64::MAX));
    assert_eq!(parse_i64_chars(&chars_of("-9223372036854775808")), Some(i64::MIN));
    assert_eq!(parse_i64_chars(&chars_of("9223372036854775808")), None);
    assert_eq!(parse_u32_chars(&chars_of("4294967295")), Some(u32::MAX));
    assert_eq!(parse_u32_chars(&chars_of("4294967296")), None);
    assert_eq!(parse_u32_chars(&chars_of("-1")), None);
    assert_eq!(parse_usize_chars(&chars_of("42")), Some(42));
    assert_eq!(parse_i32_chars(&chars_of("-2147483648")), Some(i32::MIN));
    assert_eq!(parse_i32_chars(&chars_of("2147483648")), None);
    for text in ["0", "17", "-17", "+0", "007", "x", "12a"] {
        assert_eq!(parse_i64_chars(&chars_of(text)), text.parse::<i64>().ok());
    }
}

#[test]
fn decimals_as_display_writes_them() {
    assert_eq!(s(u64_decimal(0)), "0");
    assert_eq!(s(u64_decimal(u64::MAX)), u64::MAX.to_string());
    assert_eq!(s(i64_decimal(i64::MIN)), i64::MIN.to_string());
    assert_eq!(s(i64_decimal(-42)), "-42");
    for n in [0i64, 9, 10, 99, 100, -1, 123456789] {
        assert_eq!(parse_i64_chars(&i64_decimal(n)), Some(n));
    }
}

#[test]
fn searching() {
    let hay = chars_of("a=1; csrftoken=x; b");
    assert_eq!(find_chars_from(&hay, &chars_of("csrftoken="), 0), Some(5));
    assert_eq!(find_chars_from(&hay, &chars_of("csrftoken="), 6), None);
    assert_eq!(index_of_char_from(&hay, ';', 4), Some(16));
    assert_eq!(index_of_char_from(&hay, ';', 0), Some(3));
    assert_eq!(last_index_of_char(&hay, ';'), Some(16));
    assert_eq!(last_index_of_char(&hay, '#'), None);
    assert!(chars_eq(&chars_of("ab"), &chars_of("ab")));
    assert!(!chars_eq(&chars_of("ab"), &chars_of("abc")));
    assert_eq!(s(remove_char_chars(&chars_of("1,000,000"), ',')), "1000000");
}
