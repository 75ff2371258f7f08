use lofi_atc_server::text::{
    blank_between, char_is_whitespace, contains, decimal_string, find_newline, matches_at,
    push_chars, push_decimal, starts_with, string_of, sub_chars, to_chars, trim_bounds,
};

#[test]
fn to_chars_keeps_every_character() {
    assert_eq!(to_chars("a\u{e9}z"), vec!['a', '\u{e9}', 'z']);
    assert_eq!(to_chars(""), Vec::<char>::new());
}

#[test]
fn whitespace_agrees_with_the_standard_library() {
    let mut code: u32 = 0;
    while code <= 0x10FFFF {
        if let Some(c) = char::from_u32(code) {
            assert_eq!(char_is_whitespace(c), c.is_whitespace());
        }
        code += 1;
    }
}

#[test]
fn string_of_copies_a_range() {
    let chars = to_chars("h\u{e9}llo world");
    assert_eq!(string_of(&chars, 0, 5), "h\u{e9}llo");
    assert_eq!(string_of(&chars, 6, 11), "world");
    assert_eq!(string_of(&chars, 3, 3), "");
    assert_eq!(sub_chars(&chars, 1, 3), vec!['\u{e9}', 'l']);
}

#[test]
fn push_chars_appends_a_range() {
    let chars = to_chars("abcdef");
    let mut out = "x".to_string();
    push_chars(&mut out, &chars, 2, 4);
    assert_eq!(out, "xcd");
    push_chars(&mut out, &chars, 6, 6);
    assert_eq!(out, "xcd");
}

#[test]
fn pattern_is_matched_at_an_index() {
    let chars = to_chars("abcabc");
    let pat = to_chars("bc");
    assert!(!matches_at(&chars, 0, &pat));
    assert!(matches_at(&chars, 1, &pat));
    assert!(matches_at(&chars, 4, &pat));
    assert!(!matches_at(&chars, 5, &pat));
    assert!(!matches_at(&chars, 7, &pat));
    assert!(matches_at(&chars, 6, &Vec::new()));
    assert!(!matches_at(&chars, 7, &Vec::new()));
}

#[test]
fn prefix_and_occurrence_are_found() {
    let chars = to_chars("http://origin/a.m3u8");
    assert!(starts_with(&chars, &to_chars("http://")));
    assert!(!starts_with(&chars, &to_chars("https://")));
    assert!(starts_with(&chars, &Vec::new()));
    assert!(!starts_with(&to_chars("ht"), &to_chars("http://")));
    assert!(contains(&chars, &to_chars(".m3u8")));
    assert!(contains(&chars, &to_chars("http")));
    assert!(!contains(&chars, &to_chars(".m3u9")));
    assert!(contains(&chars, &Vec::new()));
    assert!(contains(&Vec::new(), &Vec::new()));
    assert!(!contains(&Vec::new(), &to_chars("a")));
}

#[test]
fn blank_ranges_hold_whitespace_only() {
    let chars = to_chars("a \t\u{3000}b");
    assert!(blank_between(&chars, 1, 4));
    assert!(blank_between(&chars, 2, 2));
    assert!(!blank_between(&chars, 0, 4));
    assert!(!blank_between(&chars, 1, 5));
}

#[test]
fn newline_is_found_from_an_index_on() {
    let chars = to_chars("ab\ncd\n");
    assert_eq!(find_newline(&chars, 0), 2);
    assert_eq!(find_newline(&chars, 2), 2);
    assert_eq!(find_newline(&chars, 3), 5);
    assert_eq!(find_newline(&chars, 6), 6);
    assert_eq!(find_newline(&to_chars("abc"), 1), 3);
}

#[test]
fn trimming_agrees_with_the_standard_library() {
    for text in ["", " ", "a", " a", "a ", " \t a b \n ", "\u{a0}x\u{2003}", "\n\n", "a\u{85}"] {
        let chars = to_chars(text);
        let (start, end) = trim_bounds(&chars);
        assert_eq!(string_of(&chars, start, end), text.trim());
    }
}

#[test]
fn numbers_are_written_in_decimal() {
    for n in [0u64, 1, 9, 10, 11, 99, 100, 1234567890, u64::MAX] {
        assert_eq!(decimal_string(n), n.to_string());
    }
    let mut out = "n=".to_string();
    push_decimal(&mut out, 305);
    assert_eq!(out, "n=305");
}
