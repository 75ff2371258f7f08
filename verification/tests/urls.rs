use lofi_atc_server::text::to_chars;
use lofi_atc_server::urls::{
    find_authority, find_delimiter, find_path, find_scheme_len, names_port_80_over_https,
    normalize_url,
};

fn path_of(url: &str) -> String {
    let chars = to_chars(url);
    let (start, end) = find_path(&chars);
    chars[start..end].iter().collect()
}

#[test]
fn https_on_port_80_becomes_http() {
    assert_eq!(normalize_url("https://example.com:80/a.ts"), "http://example.com:80/a.ts");
}

#[test]
fn repair_keeps_everything_after_the_scheme() {
    assert_eq!(normalize_url("https://example.com:80"), "http://example.com:80");
    assert_eq!(normalize_url("https://h:80?q=1"), "http://h:80?q=1");
    assert_eq!(normalize_url("https://h:80#frag"), "http://h:80#frag");
    assert_eq!(normalize_url("https://user:pw@h:80/p?x=https://y:80/"), "http://user:pw@h:80/p?x=https://y:80/");
    assert_eq!(normalize_url("https://[::1]:80/x"), "http://[::1]:80/x");
    assert_eq!(normalize_url("https://s\u{e9}.example:80/\u{e9}"), "http://s\u{e9}.example:80/\u{e9}");
}

#[test]
fn scheme_is_matched_in_either_case() {
    assert_eq!(normalize_url("HTTPS://Example.com:80/x"), "http://Example.com:80/x");
    assert_eq!(normalize_url("HttpS://h:80/"), "http://h:80/");
}

#[test]
fn other_urls_are_returned_unchanged() {
    for url in [
        "",
        "https://",
        "https://example.com/a.ts",
        "https://example.com:443/a.ts",
        "https://example.com:8080/a.ts",
        "https://example.com:800/",
        "https://example.com:080/",
        "https://example.com:80x/",
        "https://example.com/path:80",
        "https://example.com/path:80/",
        "https://example.com?x=:80",
        "https://example.com#:80",
        "https://user:80@host/",
        "https://[::80]/",
        "https:/h:80/",
        "https:h:80/",
        "http://example.com:80/a.ts",
        "ftp://example.com:80/",
        "ahttps://example.com:80/",
        " https://example.com:80/",
        "example.com:80",
        "//example.com:80/",
    ] {
        assert_eq!(normalize_url(url), url);
    }
}

#[test]
fn repair_is_idempotent() {
    for url in ["https://example.com:80/a.ts", "https://h/", "http://h:80/", "HTTPS://h:80"] {
        let once = normalize_url(url);
        assert_eq!(normalize_url(&once), once);
    }
}

#[test]
fn port_80_is_recognised_in_the_authority_only() {
    assert!(names_port_80_over_https(&to_chars("https://h:80")));
    assert!(names_port_80_over_https(&to_chars("https://:80/")));
    assert!(!names_port_80_over_https(&to_chars("https://h:8/")));
    assert!(!names_port_80_over_https(&to_chars("https://80/")));
    assert!(!names_port_80_over_https(&to_chars("https://h/:80")));
    assert!(!names_port_80_over_https(&to_chars("http://h:80")));
}

#[test]
fn scheme_is_a_letter_and_scheme_characters() {
    assert_eq!(find_scheme_len(&to_chars("https://h")), 5);
    assert_eq!(find_scheme_len(&to_chars("a+b-c.d1:x")), 8);
    assert_eq!(find_scheme_len(&to_chars("1http://h")), 0);
    assert_eq!(find_scheme_len(&to_chars("")), 0);
    assert_eq!(find_scheme_len(&to_chars("abc")), 3);
    assert_eq!(find_scheme_len(&to_chars("/a")), 0);
}

#[test]
fn authority_follows_the_scheme_separator() {
    assert_eq!(find_authority(&to_chars("http://h/p")), Some(7));
    assert_eq!(find_authority(&to_chars("https://")), Some(8));
    assert_eq!(find_authority(&to_chars("http:/h")), None);
    assert_eq!(find_authority(&to_chars("http:")), None);
    assert_eq!(find_authority(&to_chars("://h")), None);
    assert_eq!(find_authority(&to_chars("/p?u=http://h")), None);
}

#[test]
fn delimiters_are_found_from_an_index_on() {
    let url = to_chars("ab/cd?ef#g");
    assert_eq!(find_delimiter(&url, 0, true), 2);
    assert_eq!(find_delimiter(&url, 0, false), 5);
    assert_eq!(find_delimiter(&url, 6, false), 8);
    assert_eq!(find_delimiter(&url, 9, true), 10);
    assert_eq!(find_delimiter(&url, 10, true), 10);
}

#[test]
fn path_stands_between_authority_and_query() {
    assert_eq!(path_of("http://h/a/b.m3u8?x=1#f"), "/a/b.m3u8");
    assert_eq!(path_of("http://h"), "");
    assert_eq!(path_of("http://h?x=/a"), "");
    assert_eq!(path_of("http://h#/a"), "");
    assert_eq!(path_of("http://h:80/a#b?c"), "/a");
    assert_eq!(path_of("/a/b?c"), "/a/b");
    assert_eq!(path_of("a/b"), "a/b");
    assert_eq!(path_of(""), "");
}
