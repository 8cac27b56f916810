use cliutil::text::{
    find_char, format_parameter_value, given_or_empty, is_long_name, is_short_name,
    split_parameter, str_eq, strip_prefix,
};

#[test]
fn str_eq_compares_every_character() {
    assert!(str_eq("", ""));
    assert!(str_eq("flag", "flag"));
    assert!(!str_eq("flag", "flags"));
    assert!(!str_eq("flags", "flag"));
    assert!(!str_eq("flag", "Flag"));
    assert!(!str_eq("flag", "flap"));
    assert!(!str_eq("", "a"));
    assert!(str_eq("\u{e9}t\u{e9}", "\u{e9}t\u{e9}"));
    assert!(!str_eq("\u{e9}t\u{e9}", "ete"));
}

#[test]
fn find_char_returns_the_first_position() {
    assert_eq!(find_char("", '='), None);
    assert_eq!(find_char("abc", '='), None);
    assert_eq!(find_char("=", '='), Some(0));
    assert_eq!(find_char("a=b=c", '='), Some(1));
    assert_eq!(find_char("name==", '='), Some(4));
    let accented = "\u{e9}\u{e9}=x";
    assert_eq!(find_char(accented, '='), Some(2));
}

#[test]
fn long_names_start_with_two_dashes() {
    assert!(is_long_name("--flag"));
    assert!(is_long_name("--"));
    assert!(is_long_name("---"));
    assert!(!is_long_name("-f"));
    assert!(!is_long_name("-"));
    assert!(!is_long_name(""));
    assert!(!is_long_name("flag"));
    assert!(!is_long_name("f--"));
    assert!(!is_long_name("-f-"));
}

#[test]
fn short_names_start_with_a_dash() {
    assert!(is_short_name("-f"));
    assert!(is_short_name("-"));
    assert!(is_short_name("--flag"));
    assert!(!is_short_name(""));
    assert!(!is_short_name("f-"));
    assert!(!is_short_name("flag"));
}

#[test]
fn strip_prefix_counts_characters() {
    assert_eq!(strip_prefix("--flag", 2), "flag");
    assert_eq!(strip_prefix("-f", 1), "f");
    assert_eq!(strip_prefix("--", 2), "");
    assert_eq!(strip_prefix("flag", 0), "flag");
    assert_eq!(strip_prefix("\u{e9}\u{4e16}x", 2), "x");
}

#[test]
fn split_parameter_cuts_at_the_first_equals_sign() {
    assert_eq!(split_parameter("param=x"), Some(("param", "x")));
    assert_eq!(split_parameter("param=a=b"), Some(("param", "a=b")));
    assert_eq!(split_parameter("param="), Some(("param", "")));
    assert_eq!(split_parameter("=x"), Some(("", "x")));
    assert_eq!(split_parameter("="), Some(("", "")));
    assert_eq!(split_parameter("=="), Some(("", "=")));
    assert_eq!(split_parameter("param"), None);
    assert_eq!(split_parameter(""), None);
    assert_eq!(split_parameter("n\u{e9}=\u{4e16}=\u{754c}"), Some(("n\u{e9}", "\u{4e16}=\u{754c}")));
}

#[test]
fn parameter_values_are_kept_as_given() {
    assert_eq!(format_parameter_value("hello"), "hello".to_string());
    assert_eq!(format_parameter_value(""), String::new());
    assert_eq!(format_parameter_value(" a b "), " a b ".to_string());
}

#[test]
fn a_text_that_was_not_given_is_empty() {
    assert_eq!(given_or_empty(None), "");
    assert_eq!(given_or_empty(Some("name")), "name");
    assert_eq!(given_or_empty(Some("")), "");
}
