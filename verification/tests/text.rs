use codexbar_rs::text::{
    ascii_lowercase_chars, chars_of, concat3, eq_ignore_ascii_case_chars, find_chars, i64_to_string,
    lines_of, parse_u64_digits, string_of, trim_char_chars, trim_chars, trim_string, u64_to_string,
};

#[test]
fn trims_unicode_whitespace() {
    assert_eq!(trim_string(" \t\u{3000}a b\u{a0}\n"), "a b");
    assert_eq!(trim_string("   "), "");
    assert_eq!(string_of(&trim_chars(&chars_of("x"))), "x");
    assert_eq!(string_of(&trim_char_chars(&chars_of("││ab│"), '│')), "ab");
}

#[test]
fn splits_lines_like_str_lines() {
    let ls = lines_of(&chars_of("a\r\nb\n\nc\r"));
    let got: Vec<String> = ls.iter().map(|l| string_of(l)).collect();
    assert_eq!(got, vec!["a", "b", "", "c\r"]);
    assert!(lines_of(&chars_of("")).is_empty());
    assert_eq!(lines_of(&chars_of("x\n")).len(), 1);
}

#[test]
fn decimal_rendering_and_parsing() {
    assert_eq!(u64_to_string(0), "0");
    assert_eq!(u64_to_string(1775000000), "1775000000");
    assert_eq!(u64_to_string(u64::MAX), "18446744073709551615");
    assert_eq!(i64_to_string(-32600), "-32600");
    assert_eq!(i64_to_string(i64::MIN), "-9223372036854775808");
    assert_eq!(parse_u64_digits(&chars_of("0042")), Some(42));
    assert_eq!(parse_u64_digits(&chars_of("")), None);
    assert_eq!(parse_u64_digits(&chars_of("18446744073709551616")), None);
    assert_eq!(parse_u64_digits(&chars_of("18446744073709551615")), Some(u64::MAX));
}

#[test]
fn search_and_case() {
    assert_eq!(find_chars(&chars_of("abcabc"), &chars_of("ca")), Some(2));
    assert_eq!(find_chars(&chars_of("abc"), &chars_of("")), Some(0));
    assert_eq!(find_chars(&chars_of("abc"), &chars_of("d")), None);
    assert!(eq_ignore_ascii_case_chars(&chars_of("CoDeX"), &chars_of("codex")));
    assert!(!eq_ignore_ascii_case_chars(&chars_of("codexx"), &chars_of("codex")));
    assert_eq!(string_of(&ascii_lowercase_chars(&chars_of("ÄB-c"))), "Äb-c");
    assert_eq!(concat3("a", "b", "c"), "abc");
}
