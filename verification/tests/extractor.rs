use lofi_atc_server::error::RelayError;
use lofi_atc_server::extractor::{
    interpret_run, parse_tool_output, resolver_command, ExtractionResult, ToolRun,
};

fn extraction(title: &str, url: &str) -> ExtractionResult {
    ExtractionResult { direct_media_url: url.to_string(), title: title.to_string() }
}

fn finished(success: bool, stdout: &str, stderr: &str) -> ToolRun {
    ToolRun::Finished { success, stdout: stdout.to_string(), stderr: stderr.to_string() }
}

#[test]
fn resolver_is_asked_for_title_and_url_of_the_best_audio() {
    assert_eq!(
        resolver_command("https://www.youtube.com/watch?v=jfKfPfyJRdk"),
        vec!["yt-dlp", "-f", "ba/b", "--get-url", "--get-title", "https://www.youtube.com/watch?v=jfKfPfyJRdk"]
    );
}

#[test]
fn resolver_takes_the_url_as_one_word() {
    let line = resolver_command("a b'; rm -rf /");
    assert_eq!(line.len(), 6);
    assert_eq!(line[5], "a b'; rm -rf /");
}

#[test]
fn title_comes_first_and_url_second() {
    assert_eq!(
        parse_tool_output("Lofi Girl\nhttps://media.example/audio.m4a\n"),
        Some(extraction("Lofi Girl", "https://media.example/audio.m4a"))
    );
}

#[test]
fn output_is_trimmed_before_it_is_split() {
    assert_eq!(
        parse_tool_output("\n \tTitle\nhttp://u\n\n  "),
        Some(extraction("Title", "http://u"))
    );
}

#[test]
fn lines_after_the_second_are_ignored() {
    assert_eq!(parse_tool_output("T\nU\nV\nW"), Some(extraction("T", "U")));
}

#[test]
fn empty_second_line_is_an_empty_url() {
    assert_eq!(parse_tool_output("T\n\nU"), Some(extraction("T", "")));
}

#[test]
fn carriage_returns_stay_in_the_fields() {
    assert_eq!(parse_tool_output("T\r\nU\r\nV"), Some(extraction("T\r", "U\r")));
}

#[test]
fn fewer_than_two_lines_say_nothing() {
    assert_eq!(parse_tool_output(""), None);
    assert_eq!(parse_tool_output("   \n\t\n"), None);
    assert_eq!(parse_tool_output("only a title"), None);
    assert_eq!(parse_tool_output("only a title\n"), None);
}

#[test]
fn parsing_agrees_with_trim_and_split() {
    for stdout in ["", "a", "a\nb", " a \n b \n", "\na\nb", "a\n\n", "\u{3000}a\u{a0}\nb\u{2028}", "a\rb\nc\n\nd\n"] {
        let lines: Vec<&str> = stdout.trim().split('\n').collect();
        let expected = if lines.len() >= 2 { Some(extraction(lines[0], lines[1])) } else { None };
        assert_eq!(parse_tool_output(stdout), expected);
    }
}

#[test]
fn tool_that_did_not_start_is_unavailable() {
    assert_eq!(interpret_run(ToolRun::NotStarted), Err(RelayError::ToolUnavailable));
}

#[test]
fn failed_run_carries_its_standard_error() {
    assert_eq!(
        interpret_run(finished(false, "Title\nhttp://u\n", "ERROR: video unavailable\n")),
        Err(RelayError::ExtractionFailed("ERROR: video unavailable\n".to_string()))
    );
}

#[test]
fn successful_run_with_one_line_is_malformed() {
    assert_eq!(interpret_run(finished(true, "Title\n", "")), Err(RelayError::MalformedToolOutput));
    assert_eq!(interpret_run(finished(true, "", "warning")), Err(RelayError::MalformedToolOutput));
}

#[test]
fn successful_run_gives_the_extraction() {
    assert_eq!(
        interpret_run(finished(true, "Title\nhttp://u\n", "warning")),
        Ok(extraction("Title", "http://u"))
    );
}
