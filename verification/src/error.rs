//! The failures of a request, with the HTTP status and the message that each
//! is answered with.

use vstd::prelude::*;

verus! {

/// Why a request could not be served.
#[derive(Debug, Clone, PartialEq, Eq)]
pub enum RelayError {
    /// The upstream server could not be reached; holds the transport's
    /// message.
    UpstreamConnectError(String),
    /// The upstream server redirected more often than the relay follows.
    TooManyRedirects,
    /// A redirection came without a `Location` header.
    InvalidRedirect,
    /// The body of a playlist could not be read.
    ManifestReadError,
    /// The resolver tool could not be started.
    ToolUnavailable,
    /// The resolver tool ended with a failure; holds what it wrote to its
    /// standard error.
    ExtractionFailed(String),
    /// The resolver tool wrote fewer than two lines.
    MalformedToolOutput,
    /// The streaming pipeline could not be started.
    SpawnError,
    /// No music source has the identifier that was asked for.
    SourceNotFound,
}

/// A failure with its texts as character sequences.
pub enum Failure {
    UpstreamConnectError(Seq<char>),
    TooManyRedirects,
    InvalidRedirect,
    ManifestReadError,
    ToolUnavailable,
    ExtractionFailed(Seq<char>),
    MalformedToolOutput,
    SpawnError,
    SourceNotFound,
}

impl View for RelayError {
    type V = Failure;

    open spec fn view(&self) -> Failure {
        match *self {
            RelayError::UpstreamConnectError(reason) => Failure::UpstreamConnectError(reason@),
            RelayError::TooManyRedirects => Failure::TooManyRedirects,
            RelayError::InvalidRedirect => Failure::InvalidRedirect,
            RelayError::ManifestReadError => Failure::ManifestReadError,
            RelayError::ToolUnavailable => Failure::ToolUnavailable,
            RelayError::ExtractionFailed(stderr) => Failure::ExtractionFailed(stderr@),
            RelayError::MalformedToolOutput => Failure::MalformedToolOutput,
            RelayError::SpawnError => Failure::SpawnError,
            RelayError::SourceNotFound => Failure::SourceNotFound,
        }
    }
}

/// The HTTP status a failure is answered with: 502 where the upstream server
/// is at fault, 404 for an unknown source, 500 for the rest.
pub open spec fn status_of(failure: Failure) -> u16 {
    match failure {
        Failure::UpstreamConnectError(_) => 502,
        Failure::TooManyRedirects => 502,
        Failure::InvalidRedirect => 502,
        Failure::SourceNotFound => 404,
        Failure::ManifestReadError => 500,
        Failure::ToolUnavailable => 500,
        Failure::ExtractionFailed(_) => 500,
        Failure::MalformedToolOutput => 500,
        Failure::SpawnError => 500,
    }
}

/// The message a failure is answered with.
pub open spec fn message_of(failure: Failure) -> Seq<char> {
    match failure {
        Failure::UpstreamConnectError(reason) => "Failed to connect to stream: "@ + reason,
        Failure::TooManyRedirects => "Too many redirects"@,
        Failure::InvalidRedirect => "Redirect without a Location header"@,
        Failure::ManifestReadError => "Failed to read HLS manifest"@,
        Failure::ToolUnavailable => "Failed to execute yt-dlp. Make sure it's installed."@,
        Failure::ExtractionFailed(stderr) => "Failed to extract YouTube URL: "@ + stderr,
        Failure::MalformedToolOutput => "Failed to parse yt-dlp output"@,
        Failure::SpawnError => "Failed to start streaming pipeline"@,
        Failure::SourceNotFound => "Music source not found"@,
    }
}

impl RelayError {
    /// The HTTP status this failure is answered with.
    pub fn status(&self) -> (code: u16)
        ensures
            code == status_of(self@),
    {
        match self {
            RelayError::UpstreamConnectError(_) => 502,
            RelayError::TooManyRedirects => 502,
            RelayError::InvalidRedirect => 502,
            RelayError::SourceNotFound => 404,
            RelayError::ManifestReadError => 500,
            RelayError::ToolUnavailable => 500,
            RelayError::ExtractionFailed(_) => 500,
            RelayError::MalformedToolOutput => 500,
            RelayError::SpawnError => 500,
        }
    }

    /// The message this failure is answered with.
    pub fn message(&self) -> (text: String)
        ensures
            text@ == message_of(self@),
    {
        match self {
            RelayError::UpstreamConnectError(reason) => {
                String::from_str("Failed to connect to stream: ").concat(reason.as_str())
            },
            RelayError::TooManyRedirects => String::from_str("Too many redirects"),
            RelayError::InvalidRedirect => String::from_str("Redirect without a Location header"),
            RelayError::ManifestReadError => String::from_str("Failed to read HLS manifest"),
            RelayError::ToolUnavailable => {
                String::from_str("Failed to execute yt-dlp. Make sure it's installed.")
            },
            RelayError::ExtractionFailed(stderr) => {
                String::from_str("Failed to extract YouTube URL: ").concat(stderr.as_str())
            },
            RelayError::MalformedToolOutput => String::from_str("Failed to parse yt-dlp output"),
            RelayError::SpawnError => String::from_str("Failed to start streaming pipeline"),
            RelayError::SourceNotFound => String::from_str("Music source not found"),
        }
    }
}

} // verus!
