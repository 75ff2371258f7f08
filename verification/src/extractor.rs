//! The resolver tool: how it is called, and what its run means.
//!
//! The tool is started once per request with the address of a video page. It
//! writes the title and the direct media URL to its standard output, one per
//! line and in this order.

use crate::error::{Failure, RelayError};
use crate::text::{
    find_newline, first_newline, string_of, sub_chars, texts, to_chars, trim_bounds, trimmed,
};
use vstd::prelude::*;

verus! {

/// A direct media URL and the title that belongs to it.
#[derive(Debug, Clone, PartialEq, Eq)]
pub struct ExtractionResult {
    pub direct_media_url: String,
    pub title: String,
}

/// An extraction as a plain value.
pub struct Extraction {
    pub direct_media_url: Seq<char>,
    pub title: Seq<char>,
}

impl View for ExtractionResult {
    type V = Extraction;

    open spec fn view(&self) -> Extraction {
        Extraction { direct_media_url: self.direct_media_url@, title: self.title@ }
    }
}

/// How a run of the resolver tool went.
#[derive(Debug, Clone, PartialEq, Eq)]
pub enum ToolRun {
    /// The tool could not be started.
    NotStarted,
    /// The tool ran to its end.
    Finished { success: bool, stdout: String, stderr: String },
}

/// A run as a plain value.
pub enum Run {
    NotStarted,
    Finished { success: bool, stdout: Seq<char>, stderr: Seq<char> },
}

impl View for ToolRun {
    type V = Run;

    open spec fn view(&self) -> Run {
        match *self {
            ToolRun::NotStarted => Run::NotStarted,
            ToolRun::Finished { success, stdout, stderr } => Run::Finished {
                success,
                stdout: stdout@,
                stderr: stderr@,
            },
        }
    }
}

/// The command that prints the title and the URL of the best audio format
/// of `source_url`: the program, followed by its arguments.
pub open spec fn resolver_line(source_url: Seq<char>) -> Seq<Seq<char>> {
    seq!["yt-dlp"@, "-f"@, "ba/b"@, "--get-url"@, "--get-title"@, source_url]
}

/// What the output of the tool says. The output is trimmed; the title is
/// what stands before its first line feed, the URL what stands between the
/// first line feed and the second, or the end. An output without line feed
/// says nothing.
pub open spec fn parsed_output(stdout: Seq<char>) -> Option<Extraction> {
    let output = trimmed(stdout);
    let title_end = first_newline(output);
    if 0 <= title_end < output.len() {
        let rest = output.skip(title_end + 1);
        Some(
            Extraction {
                direct_media_url: rest.take(first_newline(rest)),
                title: output.take(title_end),
            },
        )
    } else {
        None
    }
}

/// What a run of the tool means: a tool that did not start is unavailable, a
/// run that failed carries its standard error, and the output of a run that
/// succeeded is parsed.
pub open spec fn outcome_of(run: Run) -> Result<Extraction, Failure> {
    match run {
        Run::NotStarted => Err(Failure::ToolUnavailable),
        Run::Finished { success, stdout, stderr } => {
            if !success {
                Err(Failure::ExtractionFailed(stderr))
            } else {
                match parsed_output(stdout) {
                    Some(extraction) => Ok(extraction),
                    None => Err(Failure::MalformedToolOutput),
                }
            }
        },
    }
}

/// The view of an optional extraction.
pub open spec fn option_view(value: Option<ExtractionResult>) -> Option<Extraction> {
    match value {
        Some(extraction) => Some(extraction@),
        None => None,
    }
}

/// The view of the result of an extraction.
pub open spec fn result_view(value: Result<ExtractionResult, RelayError>) -> Result<
    Extraction,
    Failure,
> {
    match value {
        Ok(extraction) => Ok(extraction@),
        Err(error) => Err(error@),
    }
}

/// The command the resolver tool is started with for `source_url`. Each
/// argument is a word of its own: no shell reads the URL.
pub fn resolver_command(source_url: &str) -> (line: Vec<String>)
    ensures
        texts(line@) == resolver_line(source_url@),
{
    let mut line: Vec<String> = Vec::new();
    line.push(String::from_str("yt-dlp"));
    line.push(String::from_str("-f"));
    line.push(String::from_str("ba/b"));
    line.push(String::from_str("--get-url"));
    line.push(String::from_str("--get-title"));
    line.push(String::from_str(source_url));
    line
}

/// Reads the title and the media URL from the output of the tool.
pub fn parse_tool_output(stdout: &str) -> (parsed: Option<ExtractionResult>)
    ensures
        option_view(parsed) == parsed_output(stdout@),
{
    let chars = to_chars(stdout);
    let (start, end) = trim_bounds(&chars);
    let output = sub_chars(&chars, start, end);
    assert(output@.skip(0) == output@);
    let title_end = find_newline(&output, 0);
    if title_end >= output.len() {
        return None;
    }
    let url_end = find_newline(&output, title_end + 1);
    let title = string_of(&output, 0, title_end);
    let direct_media_url = string_of(&output, title_end + 1, url_end);
    proof {
        let rest = output@.skip(title_end + 1);
        assert(direct_media_url@ == rest.take(first_newline(rest)));
    }
    Some(ExtractionResult { direct_media_url, title })
}

/// Tells what a run of the resolver tool means.
pub fn interpret_run(run: ToolRun) -> (outcome: Result<ExtractionResult, RelayError>)
    ensures
        result_view(outcome) == outcome_of(run@),
{
    match run {
        ToolRun::NotStarted => Err(RelayError::ToolUnavailable),
        ToolRun::Finished { success, stdout, stderr } => {
            if !success {
                Err(RelayError::ExtractionFailed(stderr))
            } else {
                match parse_tool_output(stdout.as_str()) {
                    Some(extraction) => Ok(extraction),
                    None => Err(RelayError::MalformedToolOutput),
                }
            }
        },
    }
}

} // verus!
