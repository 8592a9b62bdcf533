use ubuild::text::{join_words, parse_i32, render_i32, render_two_digits, str_eq, trim_newlines};

#[test]
fn renders_integers_in_decimal() {
    assert_eq!(render_i32(0), "0");
    assert_eq!(render_i32(137), "137");
    assert_eq!(render_i32(-1), "-1");
    assert_eq!(render_i32(i32::MAX), "2147483647");
    assert_eq!(render_i32(i32::MIN), "-2147483648");
}

#[test]
fn renders_two_digits_zero_padded() {
    assert_eq!(render_two_digits(0), "00");
    assert_eq!(render_two_digits(7), "07");
    assert_eq!(render_two_digits(59), "59");
}

#[test]
fn parses_like_std() {
    for s in ["0", "42", "-42", "+7", "", "-", "+", "12a", " 1", "2147483647", "2147483648",
        "-2147483648", "-2147483649", "99999999999999999999", "007"]
    {
        assert_eq!(parse_i32(s), s.parse::<i32>().ok(), "input {:?}", s);
    }
}

#[test]
fn trims_trailing_line_feeds_only() {
    assert_eq!(trim_newlines("abc\n\n"), "abc");
    assert_eq!(trim_newlines("\nabc"), "\nabc");
    assert_eq!(trim_newlines("\n"), "");
    assert_eq!(trim_newlines(""), "");
}

#[test]
fn joins_words_with_single_spaces() {
    let words: Vec<String> = vec!["cargo".to_string(), "build".to_string(), "--release".to_string()];
    assert_eq!(join_words(&words), "cargo build --release");
    assert_eq!(join_words(&vec![]), "");
    assert_eq!(join_words(&vec!["make".to_string()]), "make");
}

#[test]
fn compares_strings() {
    assert!(str_eq("abc", "abc"));
    assert!(!str_eq("abc", "abd"));
    assert!(!str_eq("abc", "ab"));
    assert!(str_eq("", ""));
}
