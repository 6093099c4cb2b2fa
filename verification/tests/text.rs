use dosomekamas::text::{
    chars_contain, chars_eq_ignore_ascii_case, chars_of, same_text, split_lines, trim_text,
};

#[test]
fn ascii_case_comparison_and_substring_search() {
    let a = chars_of("Force");
    let b = chars_of("fORCE");
    let c = chars_of("Forcé");
    assert!(chars_eq_ignore_ascii_case(&a, &b));
    assert!(!chars_eq_ignore_ascii_case(&a, &c));
    assert!(chars_contain(&chars_of("% résistance feu"), &chars_of("sistance")));
    assert!(chars_contain(&chars_of("abc"), &chars_of("")));
    assert!(!chars_contain(&chars_of("ab"), &chars_of("abc")));
    assert!(!chars_contain(&chars_of("abcd"), &chars_of("bd")));
}

#[test]
fn same_text_compares_characters() {
    assert!(same_text("pods", "pods"));
    assert!(!same_text("pods", "Pods"));
}

#[test]
fn lines_split_at_line_feeds_and_crlf() {
    assert_eq!(split_lines("a\r\nb\r"), vec!["a", "b\r"]);
    assert_eq!(split_lines("a\n\nb\n"), vec!["a", "", "b"]);
    assert_eq!(split_lines(""), Vec::<&str>::new());
    assert_eq!(split_lines("\n"), vec![""]);
    assert_eq!(split_lines("x\ry\r\n"), vec!["x\ry"]);
    let text = "Coiffe\r\n\n  +15 Force\n-5 Intelligence";
    assert_eq!(split_lines(text), text.lines().collect::<Vec<_>>());
}

#[test]
fn trim_removes_unicode_white_space() {
    assert_eq!(trim_text("\u{a0} Agilité \t\u{3000}"), "Agilité");
    assert_eq!(trim_text(" \n "), "");
    assert_eq!(trim_text("a b"), "a b");
    let text = "\u{2028}\u{85} Sagesse\u{202f}\r";
    assert_eq!(trim_text(text), text.trim());
}
