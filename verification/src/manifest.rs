//! Rewriting of HLS playlists: every media URI of a playlist is replaced by a
//! URL of the relay endpoint that carries its target, so that the
//! segments are fetched through the relay as well.

use crate::percent::{
    is_encoded_char, lemma_percent_encoded_chars, lemma_percent_round_trip, percent_decoded,
    percent_encode, percent_encoded,
};
use crate::text::{
    blank_between, find_newline, first_newline, is_blank, option_text, starts_with, string_of,
    texts, to_chars,
};
use vstd::prelude::*;

verus! {

/// The relay endpoint, up to and including the name of its query parameter.
pub const RELAY_ENDPOINT: &'static str = "http://localhost:3000/api/proxy/stream?url=";

/// What `url::Url::parse(base)` followed by `url::Url::join(reference)` gives:
/// the text of the resolved URL, or nothing where either of the two fails.
pub uninterp spec fn url_join(base: Seq<char>, reference: Seq<char>) -> Option<Seq<char>>;

/// `line` without one carriage return at its end.
pub open spec fn without_carriage_return(line: Seq<char>) -> Seq<char> {
    if line.len() > 0 && line.last() == '\r' {
        line.drop_last()
    } else {
        line
    }
}

/// The lines of `text`. A line ends with a line feed, or with a carriage
/// return and a line feed; neither belongs to the line. What follows the last
/// line feed is a line too, unless it is empty.
pub open spec fn lines_of(text: Seq<char>) -> Seq<Seq<char>>
    decreases text.len(),
{
    let end = first_newline(text);
    if text.len() == 0 {
        Seq::empty()
    } else if 0 <= end < text.len() {
        seq![without_carriage_return(text.take(end))] + lines_of(text.skip(end + 1))
    } else {
        seq![text]
    }
}

/// The lines, each followed by a line feed.
pub open spec fn joined(lines: Seq<Seq<char>>) -> Seq<char>
    decreases lines.len(),
{
    if lines.len() == 0 {
        Seq::empty()
    } else {
        joined(lines.drop_last()) + lines.last() + seq!['\n']
    }
}

/// How a line of a playlist is treated.
#[derive(Clone, Copy, Debug, PartialEq, Eq, Structural)]
pub enum LineKind {
    /// A tag, a comment or a blank line: copied.
    Verbatim,
    /// A URI that begins with `http://` or `https://`.
    Absolute,
    /// Any other line: a URI relative to the URL of the playlist.
    Relative,
}

/// The text `http://`.
pub open spec fn http_prefix() -> Seq<char> {
    seq!['h', 't', 't', 'p', ':', '/', '/']
}

/// The text `https://`.
pub open spec fn https_prefix() -> Seq<char> {
    seq!['h', 't', 't', 'p', 's', ':', '/', '/']
}

/// `line` begins with `#` or holds whitespace only.
pub open spec fn is_verbatim(line: Seq<char>) -> bool {
    (line.len() > 0 && line[0] == '#') || is_blank(line)
}

/// `line` begins with `http://` or `https://`.
pub open spec fn is_absolute(line: Seq<char>) -> bool {
    http_prefix().is_prefix_of(line) || https_prefix().is_prefix_of(line)
}

/// How `line` is treated: a tag or a blank line is told first, an absolute
/// URI second.
pub open spec fn kind_of(line: Seq<char>) -> LineKind {
    if is_verbatim(line) {
        LineKind::Verbatim
    } else if is_absolute(line) {
        LineKind::Absolute
    } else {
        LineKind::Relative
    }
}

/// The URL of the relay endpoint that carries `target` in its query.
pub open spec fn relayed(target: Seq<char>) -> Seq<char> {
    RELAY_ENDPOINT@ + percent_encoded(target)
}

/// A relative line after resolution: relayed where the resolution gave a
/// URL, unchanged where it failed.
pub open spec fn resolved_line(line: Seq<char>, resolved: Option<Seq<char>>) -> Seq<char> {
    match resolved {
        Some(target) => relayed(target),
        None => line,
    }
}

/// What a line of a playlist fetched from `base` becomes.
pub open spec fn rewritten_line(line: Seq<char>, base: Seq<char>) -> Seq<char> {
    match kind_of(line) {
        LineKind::Verbatim => line,
        LineKind::Absolute => relayed(line),
        LineKind::Relative => resolved_line(line, url_join(base, line)),
    }
}

/// What a playlist fetched from `base` becomes: its lines, each rewritten and
/// followed by a line feed.
pub open spec fn rewritten(text: Seq<char>, base: Seq<char>) -> Seq<char> {
    joined(lines_of(text).map_values(|line: Seq<char>| rewritten_line(line, base)))
}

/// Resolves `reference` against `base` with the `url` crate: `Url::parse`
/// reads `base`, `Url::join` resolves `reference` against it, and the text of
/// the resulting URL is returned. Nothing is returned where `base` is no
/// absolute URL or `reference` cannot be resolved.
#[verifier::external_body]
pub(crate) fn join_url(base: &str, reference: &str) -> (resolved: Option<String>)
    ensures
        option_text(resolved) == url_join(base@, reference@),
{
    match url::Url::parse(base) {
        Ok(parsed) => match parsed.join(reference) {
            Ok(target) => Some(String::from(target)),
            Err(_) => None,
        },
        Err(_) => None,
    }
}

/// Splits `text` into its lines.
pub fn split_lines(text: &str) -> (lines: Vec<String>)
    ensures
        texts(lines@) == lines_of(text@),
{
    let chars = to_chars(text);
    let mut lines: Vec<String> = Vec::new();
    let mut pos: usize = 0;
    assert(text@.skip(0) == text@);
    while pos < chars.len()
        invariant
            pos <= chars.len(),
            chars@ == text@,
            lines_of(text@) == texts(lines@) + lines_of(text@.skip(pos as int)),
        decreases chars.len() - pos,
    {
        let ghost rest = text@.skip(pos as int);
        let end = find_newline(&chars, pos);
        if end < chars.len() {
            let stop = if end > pos && chars[end - 1] == '\r' {
                end - 1
            } else {
                end
            };
            let line = string_of(&chars, pos, stop);
            proof {
                assert(line@ == without_carriage_return(rest.take(end - pos)));
                assert(rest.skip(end - pos + 1) == text@.skip(end + 1));
            }
            lines.push(line);
            pos = end + 1;
        } else {
            let line = string_of(&chars, pos, end);
            lines.push(line);
            pos = end;
        }
    }
    lines
}

/// Tells how a line of a playlist is treated.
pub fn classify_line(line: &str) -> (kind: LineKind)
    ensures
        kind == kind_of(line@),
{
    let chars = to_chars(line);
    if (chars.len() > 0 && chars[0] == '#') || blank_between(&chars, 0, chars.len()) {
        assert(chars@.subrange(0, chars.len() as int) == line@);
        return LineKind::Verbatim;
    }
    let http: Vec<char> = vec!['h', 't', 't', 'p', ':', '/', '/'];
    let https: Vec<char> = vec!['h', 't', 't', 'p', 's', ':', '/', '/'];
    if starts_with(&chars, &http) || starts_with(&chars, &https) {
        LineKind::Absolute
    } else {
        LineKind::Relative
    }
}

/// The URL of the relay endpoint that hands `target` on: the endpoint
/// followed by `target`, percent-encoded.
pub fn relay_url(target: &str) -> (out: String)
    ensures
        out@ == relayed(target@),
{
    let mut out = String::from_str(RELAY_ENDPOINT);
    let encoded = percent_encode(target);
    out.append(encoded.as_str());
    out
}

/// What a relative line becomes once its resolution is known: the relay URL
/// of the resolved target, or the line itself where there is none.
pub fn relay_resolved(line: &str, resolved: Option<String>) -> (out: String)
    ensures
        out@ == resolved_line(line@, option_text(resolved)),
{
    match resolved {
        Some(target) => relay_url(target.as_str()),
        None => String::from_str(line),
    }
}

/// Rewrites one line of a playlist that was fetched from `base_url`.
///
/// Tags, comments and blank lines are returned as they are. An absolute URI
/// is relayed as it stands. Any other line is resolved against `base_url`
/// and relayed; it stays as it is where the resolution fails.
pub fn rewrite_line(line: &str, base_url: &str) -> (out: String)
    ensures
        out@ == rewritten_line(line@, base_url@),
{
    match classify_line(line) {
        LineKind::Verbatim => String::from_str(line),
        LineKind::Absolute => relay_url(line),
        LineKind::Relative => {
            let resolved = join_url(base_url, line);
            relay_resolved(line, resolved)
        },
    }
}

/// Rewrites a playlist that was fetched from `base_url`, line by line and in
/// order. Every line of the result ends with a line feed.
pub fn rewrite_m3u8_manifest(manifest: &str, base_url: &str) -> (out: String)
    ensures
        out@ == rewritten(manifest@, base_url@),
{
    let lines = split_lines(manifest);
    let ghost rewrite = |line: Seq<char>| rewritten_line(line, base_url@);
    let mut out = String::new();
    let mut i: usize = 0;
    while i < lines.len()
        invariant
            i <= lines.len(),
            texts(lines@) == lines_of(manifest@),
            rewrite == |line: Seq<char>| rewritten_line(line, base_url@),
            out@ == joined(lines_of(manifest@).take(i as int).map_values(rewrite)),
        decreases lines.len() - i,
    {
        let ghost done = lines_of(manifest@).take(i as int).map_values(rewrite);
        let ghost next = lines_of(manifest@).take(i + 1).map_values(rewrite);
        let line = rewrite_line(lines[i].as_str(), base_url);
        assert(next.drop_last() == done);
        out.append(line.as_str());
        out.push('\n');
        i += 1;
    }
    assert(lines_of(manifest@).take(i as int) == lines_of(manifest@));
    out
}

/// `line` holds no line feed.
pub open spec fn is_single_line(line: Seq<char>) -> bool {
    forall|j: int| 0 <= j < line.len() ==> #[trigger] line[j] != '\n'
}

/// The first line feed stands inside the text, or there is none; nothing
/// before it is a line feed.
proof fn lemma_first_newline(text: Seq<char>)
    ensures
        0 <= first_newline(text) <= text.len(),
        first_newline(text) < text.len() ==> text[first_newline(text)] == '\n',
        is_single_line(text.take(first_newline(text))),
    decreases text.len(),
{
    if text.len() > 0 && text[0] != '\n' {
        let rest = text.drop_first();
        lemma_first_newline(rest);
        let end = first_newline(text);
        assert forall|j: int| 0 <= j < end implies #[trigger] text.take(end)[j] != '\n' by {
            if j > 0 {
                assert(rest.take(end - 1)[j - 1] == text[j]);
            }
        }
    }
}

/// Where a text without line feed is followed by a line feed, the first
/// line feed of the whole is that one.
proof fn lemma_first_newline_after(line: Seq<char>, rest: Seq<char>)
    requires
        is_single_line(line),
    ensures
        first_newline(line + seq!['\n'] + rest) == line.len(),
    decreases line.len(),
{
    let whole = line + seq!['\n'] + rest;
    if line.len() > 0 {
        assert(whole.drop_first() == line.drop_first() + seq!['\n'] + rest);
        assert(is_single_line(line.drop_first()));
        lemma_first_newline_after(line.drop_first(), rest);
    }
}

/// The lines of a text hold no line feed.
pub proof fn lemma_lines_are_single(text: Seq<char>)
    ensures
        forall|i: int|
            0 <= i < lines_of(text).len() ==> is_single_line(#[trigger] lines_of(text)[i]),
    decreases text.len(),
{
    let end = first_newline(text);
    lemma_first_newline(text);
    if 0 < text.len() <= end {
        assert(text.take(end) == text);
    } else if text.len() > 0 {
        let rest = lines_of(text.skip(end + 1));
        lemma_lines_are_single(text.skip(end + 1));
        assert(is_single_line(without_carriage_return(text.take(end))));
        assert forall|i: int| 0 <= i < lines_of(text).len() implies is_single_line(
            #[trigger] lines_of(text)[i],
        ) by {
            if i > 0 {
                assert(lines_of(text)[i] == rest[i - 1]);
            }
        }
    }
}

/// Joining puts the first line and a line feed in front of the others.
proof fn lemma_joined_front(lines: Seq<Seq<char>>)
    requires
        lines.len() > 0,
    ensures
        joined(lines) == lines[0] + seq!['\n'] + joined(lines.drop_first()),
    decreases lines.len(),
{
    if lines.len() == 1 {
        assert(joined(lines.drop_last()) == Seq::<char>::empty());
    } else {
        let shorter = lines.drop_last();
        lemma_joined_front(shorter);
        assert(shorter.drop_first() == lines.drop_first().drop_last());
    }
}

/// Splitting joined lines gives the lines back, each without a carriage
/// return at its end.
pub proof fn lemma_lines_of_joined(lines: Seq<Seq<char>>)
    requires
        forall|i: int| 0 <= i < lines.len() ==> is_single_line(#[trigger] lines[i]),
    ensures
        lines_of(joined(lines)) == lines.map_values(
            |line: Seq<char>| without_carriage_return(line),
        ),
    decreases lines.len(),
{
    if lines.len() > 0 {
        let first = lines[0];
        let others = lines.drop_first();
        let text = joined(lines);
        lemma_joined_front(lines);
        lemma_first_newline_after(first, joined(others));
        assert(text.take(first.len() as int) == first);
        assert(text.skip(first.len() as int + 1) == joined(others));
        lemma_lines_of_joined(others);
    }
}

/// A relay URL holds no line feed and does not end with a carriage return.
pub proof fn lemma_relayed_is_plain(target: Seq<char>)
    ensures
        is_single_line(relayed(target)),
        without_carriage_return(relayed(target)) == relayed(target),
{
    reveal_strlit("http://localhost:3000/api/proxy/stream?url=");
    lemma_percent_encoded_chars(target);
    let whole = relayed(target);
    assert forall|j: int| 0 <= j < whole.len() implies #[trigger] whole[j] != '\n' && whole[j]
        != '\r' by {
        if j >= RELAY_ENDPOINT@.len() {
            assert(is_encoded_char(percent_encoded(target)[j - RELAY_ENDPOINT@.len()]));
        }
    }
}

/// A rewritten line holds no line feed.
proof fn lemma_rewritten_line_is_single(line: Seq<char>, base: Seq<char>)
    requires
        is_single_line(line),
    ensures
        is_single_line(rewritten_line(line, base)),
{
    lemma_relayed_is_plain(line);
    if url_join(base, line) is Some {
        lemma_relayed_is_plain(url_join(base, line)->0);
    }
}

/// Line by line: each line of the rewritten playlist is the rewriting of the
/// line at the same place in the input, less a carriage return at its
/// end. In particular the number of lines stays.
pub proof fn lemma_rewrite_line_by_line(text: Seq<char>, base: Seq<char>)
    ensures
        lines_of(rewritten(text, base)).len() == lines_of(text).len(),
        forall|i: int|
            0 <= i < lines_of(text).len() ==> #[trigger] lines_of(rewritten(text, base))[i]
                == without_carriage_return(rewritten_line(lines_of(text)[i], base)),
{
    let before = lines_of(text);
    let after = before.map_values(|line: Seq<char>| rewritten_line(line, base));
    lemma_lines_are_single(text);
    assert forall|i: int| 0 <= i < after.len() implies is_single_line(#[trigger] after[i]) by {
        lemma_rewritten_line_is_single(before[i], base);
    }
    lemma_lines_of_joined(after);
}

/// Rewriting a playlist keeps the number of its lines.
pub proof fn lemma_rewrite_keeps_line_count(text: Seq<char>, base: Seq<char>)
    ensures
        lines_of(rewritten(text, base)).len() == lines_of(text).len(),
{
    lemma_rewrite_line_by_line(text, base);
}

/// A tag, a comment or a blank line that does not itself end with a carriage
/// return stands unchanged at the same place in the rewritten playlist.
pub proof fn lemma_rewrite_keeps_verbatim_lines(text: Seq<char>, base: Seq<char>, i: int)
    requires
        0 <= i < lines_of(text).len(),
        is_verbatim(lines_of(text)[i]),
        without_carriage_return(lines_of(text)[i]) == lines_of(text)[i],
    ensures
        i < lines_of(rewritten(text, base)).len(),
        lines_of(rewritten(text, base))[i] == lines_of(text)[i],
{
    lemma_rewrite_line_by_line(text, base);
}

/// A line that begins with `http://` or `https://` is neither a tag nor
/// blank.
pub proof fn lemma_absolute_is_not_verbatim(line: Seq<char>)
    requires
        is_absolute(line),
    ensures
        kind_of(line) == LineKind::Absolute,
{
    assert(line.len() > 0 && line[0] == 'h');
}

/// An absolute URI becomes the relay endpoint followed by that URI,
/// percent-encoded; decoding what follows the endpoint gives the URI back.
pub proof fn lemma_rewrite_relays_absolute_lines(text: Seq<char>, base: Seq<char>, i: int)
    requires
        0 <= i < lines_of(text).len(),
        is_absolute(lines_of(text)[i]),
    ensures
        i < lines_of(rewritten(text, base)).len(),
        lines_of(rewritten(text, base))[i] == RELAY_ENDPOINT@ + percent_encoded(lines_of(text)[i]),
        percent_decoded(lines_of(rewritten(text, base))[i].skip(RELAY_ENDPOINT@.len() as int))
            == lines_of(text)[i],
{
    let line = lines_of(text)[i];
    lemma_rewrite_line_by_line(text, base);
    lemma_absolute_is_not_verbatim(line);
    lemma_relayed_is_plain(line);
    lemma_percent_round_trip(line);
    assert(relayed(line).skip(RELAY_ENDPOINT@.len() as int) == percent_encoded(line));
}

/// A relative URI that resolves against the URL of the playlist becomes the
/// relay endpoint followed by the resolved URL, percent-encoded; decoding
/// what follows the endpoint gives the resolved URL back.
pub proof fn lemma_rewrite_resolves_relative_lines(text: Seq<char>, base: Seq<char>, i: int)
    requires
        0 <= i < lines_of(text).len(),
        kind_of(lines_of(text)[i]) == LineKind::Relative,
        url_join(base, lines_of(text)[i]) is Some,
    ensures
        i < lines_of(rewritten(text, base)).len(),
        lines_of(rewritten(text, base))[i] == RELAY_ENDPOINT@ + percent_encoded(
            url_join(base, lines_of(text)[i])->0,
        ),
        percent_decoded(lines_of(rewritten(text, base))[i].skip(RELAY_ENDPOINT@.len() as int))
            == url_join(base, lines_of(text)[i])->0,
{
    let target = url_join(base, lines_of(text)[i])->0;
    lemma_rewrite_line_by_line(text, base);
    lemma_relayed_is_plain(target);
    lemma_percent_round_trip(target);
    assert(relayed(target).skip(RELAY_ENDPOINT@.len() as int) == percent_encoded(target));
}

} // verus!
