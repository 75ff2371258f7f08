//! The parts of a URL as they stand in its text, and the repair of URLs that
//! name port 80 under the `https` scheme.

use crate::text::{ends_with, push_chars, to_chars};
use vstd::prelude::*;

verus! {

pub open spec fn is_ascii_letter(c: char) -> bool {
    'a' <= c <= 'z' || 'A' <= c <= 'Z'
}

/// The characters a scheme is made of after its first letter.
pub open spec fn is_scheme_char(c: char) -> bool {
    is_ascii_letter(c) || '0' <= c <= '9' || c == '+' || c == '-' || c == '.'
}

/// The number of scheme characters from index `from` on.
pub open spec fn scheme_run(url: Seq<char>, from: int) -> nat
    decreases url.len() - from,
{
    if 0 <= from < url.len() && is_scheme_char(url[from]) {
        1 + scheme_run(url, from + 1)
    } else {
        0
    }
}

/// The length of the scheme that `url` begins with: a letter and the scheme
/// characters after it. Zero where `url` does not begin with a letter.
pub open spec fn scheme_len(url: Seq<char>) -> nat {
    if url.len() > 0 && is_ascii_letter(url[0]) {
        scheme_run(url, 0)
    } else {
        0
    }
}

/// `url` begins with a scheme followed by `://`.
pub open spec fn has_authority(url: Seq<char>) -> bool {
    let n = scheme_len(url) as int;
    &&& n > 0
    &&& n + 3 <= url.len()
    &&& url[n] == ':'
    &&& url[n + 1] == '/'
    &&& url[n + 2] == '/'
}

/// `?` and `#` end a path; `/` as well ends an authority.
pub open spec fn is_delimiter(c: char, slash_too: bool) -> bool {
    c == '?' || c == '#' || (slash_too && c == '/')
}

/// The index of the first delimiter at or after `from`; the length of `url`
/// where there is none.
pub open spec fn next_delimiter(url: Seq<char>, from: int, slash_too: bool) -> int
    decreases url.len() - from,
{
    if from < 0 || from >= url.len() {
        url.len() as int
    } else if is_delimiter(url[from], slash_too) {
        from
    } else {
        next_delimiter(url, from + 1, slash_too)
    }
}

/// Where the path begins: behind the authority, or at the start of a text
/// that has none.
pub open spec fn path_start(url: Seq<char>) -> int {
    if has_authority(url) {
        next_delimiter(url, scheme_len(url) as int + 3, true)
    } else {
        0
    }
}

/// Where the path ends: at the first `?` or `#` behind its start, or at the
/// end of the text.
pub open spec fn path_end(url: Seq<char>) -> int {
    next_delimiter(url, path_start(url), false)
}

/// The authority of `url`: what stands between `://` and the path. Empty
/// where `url` has none.
pub open spec fn authority_of(url: Seq<char>) -> Seq<char> {
    if has_authority(url) {
        url.subrange(scheme_len(url) as int + 3, path_start(url))
    } else {
        Seq::empty()
    }
}

/// The path of `url`.
pub open spec fn path_of(url: Seq<char>) -> Seq<char> {
    url.subrange(path_start(url), path_end(url))
}

/// `url` has the scheme `https`, in letters of either case.
pub open spec fn has_https_scheme(url: Seq<char>) -> bool {
    &&& has_authority(url)
    &&& scheme_len(url) == 5
    &&& (url[0] == 'h' || url[0] == 'H')
    &&& (url[1] == 't' || url[1] == 'T')
    &&& (url[2] == 't' || url[2] == 'T')
    &&& (url[3] == 'p' || url[3] == 'P')
    &&& (url[4] == 's' || url[4] == 'S')
}

/// The text `:80`.
pub open spec fn port_80_suffix() -> Seq<char> {
    seq![':', '8', '0']
}

/// `url` has the scheme `https` and its authority ends with the port `:80`.
pub open spec fn is_https_on_port_80(url: Seq<char>) -> bool {
    has_https_scheme(url) && ends_with(authority_of(url), port_80_suffix())
}

/// The text `http`.
pub open spec fn http_scheme() -> Seq<char> {
    seq!['h', 't', 't', 'p']
}

/// `url` with the scheme `https` replaced by `http` where it names port 80;
/// any other text as it is.
pub open spec fn normalized(url: Seq<char>) -> Seq<char> {
    if is_https_on_port_80(url) {
        http_scheme() + url.skip(5)
    } else {
        url
    }
}

proof fn lemma_next_delimiter_bounds(url: Seq<char>, from: int, slash_too: bool)
    requires
        0 <= from <= url.len(),
    ensures
        from <= next_delimiter(url, from, slash_too) <= url.len(),
    decreases url.len() - from,
{
    if from < url.len() && !is_delimiter(url[from], slash_too) {
        lemma_next_delimiter_bounds(url, from + 1, slash_too);
    }
}

/// Where two texts agree from one index each, the next delimiter is equally
/// far from both.
proof fn lemma_next_delimiter_shift(a: Seq<char>, i: int, b: Seq<char>, j: int, slash_too: bool)
    requires
        0 <= i <= a.len(),
        0 <= j <= b.len(),
        a.skip(i) == b.skip(j),
    ensures
        next_delimiter(a, i, slash_too) - i == next_delimiter(b, j, slash_too) - j,
    decreases a.len() - i,
{
    assert(a.len() - i == b.len() - j) by {
        assert(a.skip(i).len() == a.len() - i);
        assert(b.skip(j).len() == b.len() - j);
    }
    if i < a.len() {
        assert(a[i] == a.skip(i)[0]);
        assert(b[j] == b.skip(j)[0]);
        if !is_delimiter(a[i], slash_too) {
            assert(a.skip(i + 1) == a.skip(i).drop_first());
            assert(b.skip(j + 1) == b.skip(j).drop_first());
            lemma_next_delimiter_shift(a, i + 1, b, j + 1, slash_too);
        }
    }
}

/// The repair changes the scheme and nothing else: the repaired URL has the
/// scheme `http`, the authority it had before, port included, and all that
/// follows it.
pub proof fn lemma_normalized_parts(url: Seq<char>)
    requires
        is_https_on_port_80(url),
    ensures
        scheme_len(normalized(url)) == 4,
        normalized(url).take(4) == http_scheme(),
        has_authority(normalized(url)),
        authority_of(normalized(url)) == authority_of(url),
        normalized(url).skip(path_start(normalized(url))) == url.skip(path_start(url)),
        !is_https_on_port_80(normalized(url)),
{
    let out = normalized(url);
    assert(scheme_run(out, 0) == 4) by {
        reveal_with_fuel(scheme_run, 6);
    }
    assert(out.skip(7) == url.skip(8));
    lemma_next_delimiter_shift(out, 7, url, 8, true);
    lemma_next_delimiter_bounds(url, 8, true);
}

fn is_letter(c: char) -> (yes: bool)
    ensures
        yes == is_ascii_letter(c),
{
    ('a' <= c && c <= 'z') || ('A' <= c && c <= 'Z')
}

fn is_scheme_character(c: char) -> (yes: bool)
    ensures
        yes == is_scheme_char(c),
{
    is_letter(c) || ('0' <= c && c <= '9') || c == '+' || c == '-' || c == '.'
}

/// The length of the scheme at the start of `url`.
pub fn find_scheme_len(url: &Vec<char>) -> (n: usize)
    ensures
        n == scheme_len(url@),
        n <= url.len(),
{
    if url.len() == 0 || !is_letter(url[0]) {
        return 0;
    }
    let mut i: usize = 0;
    while i < url.len() && is_scheme_character(url[i])
        invariant
            i <= url.len(),
            scheme_run(url@, 0) == i + scheme_run(url@, i as int),
        decreases url.len() - i,
    {
        i += 1;
    }
    i
}

/// Whether `url` has an authority, and the index at which it begins.
pub fn find_authority(url: &Vec<char>) -> (start: Option<usize>)
    ensures
        start is Some == has_authority(url@),
        start matches Some(at) ==> at == scheme_len(url@) + 3 && at <= url.len(),
{
    let n = find_scheme_len(url);
    if n > 0 && url.len() - n >= 3 && url[n] == ':' && url[n + 1] == '/' && url[n + 2] == '/' {
        Some(n + 3)
    } else {
        None
    }
}

/// The index of the first delimiter at or after `from`.
pub fn find_delimiter(url: &Vec<char>, from: usize, slash_too: bool) -> (at: usize)
    requires
        from <= url.len(),
    ensures
        at == next_delimiter(url@, from as int, slash_too),
        from <= at <= url.len(),
{
    let mut i: usize = from;
    while i < url.len() && !(url[i] == '?' || url[i] == '#' || (slash_too && url[i] == '/'))
        invariant
            from <= i <= url.len(),
            next_delimiter(url@, from as int, slash_too) == next_delimiter(
                url@,
                i as int,
                slash_too,
            ),
        decreases url.len() - i,
    {
        i += 1;
    }
    i
}

/// The bounds of the path of `url`.
pub fn find_path(url: &Vec<char>) -> (bounds: (usize, usize))
    ensures
        bounds.0 == path_start(url@),
        bounds.1 == path_end(url@),
        bounds.0 <= bounds.1 <= url.len(),
{
    let start = match find_authority(url) {
        Some(at) => find_delimiter(url, at, true),
        None => 0,
    };
    let end = find_delimiter(url, start, false);
    (start, end)
}

/// Whether `url` has the scheme `https` and names port 80 in its authority.
pub fn names_port_80_over_https(url: &Vec<char>) -> (yes: bool)
    ensures
        yes == is_https_on_port_80(url@),
{
    let start = match find_authority(url) {
        Some(at) => at,
        None => { return false; },
    };
    if start != 8 {
        return false;
    }
    let https = (url[0] == 'h' || url[0] == 'H') && (url[1] == 't' || url[1] == 'T') && (url[2]
        == 't' || url[2] == 'T') && (url[3] == 'p' || url[3] == 'P') && (url[4] == 's' || url[4]
        == 'S');
    if !https {
        return false;
    }
    let end = find_delimiter(url, start, true);
    let ghost authority = authority_of(url@);
    if end - start < 3 {
        return false;
    }
    let yes = url[end - 3] == ':' && url[end - 2] == '8' && url[end - 1] == '0';
    proof {
        let tail = authority.subrange(authority.len() - 3, authority.len() as int);
        assert(tail[0] == url@[end - 3] && tail[1] == url@[end - 2] && tail[2] == url@[end - 1]);
        if yes {
            assert(tail =~= port_80_suffix());
        }
    }
    yes
}

/// Repairs a URL that asks for `https` on port 80: the scheme becomes
/// `http`, and the rest of the text stays. Any other text is returned as it
/// is.
pub fn normalize_url(url: &str) -> (out: String)
    ensures
        out@ == normalized(url@),
        is_https_on_port_80(url@) ==> out@ == http_scheme() + url@.skip(5),
        !is_https_on_port_80(url@) ==> out@ == url@,
{
    let chars = to_chars(url);
    let mut out = String::new();
    if names_port_80_over_https(&chars) {
        out.push('h');
        out.push('t');
        out.push('t');
        out.push('p');
        push_chars(&mut out, &chars, 5, chars.len());
    } else {
        push_chars(&mut out, &chars, 0, chars.len());
    }
    out
}

} // verus!
