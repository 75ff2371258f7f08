//! What the HTTP boundary needs besides the relay itself: the envelope of the
//! JSON answers, the headers of the streamed ones, and the port to listen on.

use crate::catalog::{
    atc_stations, catalog_sources, catalog_stations, music_sources, sources_view, stations_view,
    AtcStation, MusicSource,
};
use crate::error::{Failure, RelayError};
use crate::extractor::{interpret_run, outcome_of, Extraction, ExtractionResult, ToolRun};
use vstd::prelude::*;

verus! {

/// The port the server listens on where none is configured.
pub const DEFAULT_PORT: u16 = 3000;

/// What the health check answers.
pub const HEALTH_MESSAGE: &'static str = "Lofi ATC Server is running";

/// The envelope of a JSON answer.
#[derive(Debug, Clone, PartialEq, Eq)]
pub struct ApiResponse<T> {
    pub success: bool,
    pub data: T,
}

impl<T> ApiResponse<T> {
    /// The envelope of a successful answer.
    pub fn ok(data: T) -> (response: ApiResponse<T>)
        ensures
            response == (ApiResponse { success: true, data }),
    {
        ApiResponse { success: true, data }
    }
}

/// A header of a response.
#[derive(Debug, Clone, PartialEq, Eq)]
pub struct Header {
    pub name: String,
    pub value: String,
}

/// A header as a plain value.
pub struct HeaderLine {
    pub name: Seq<char>,
    pub value: Seq<char>,
}

impl View for Header {
    type V = HeaderLine;

    open spec fn view(&self) -> HeaderLine {
        HeaderLine { name: self.name@, value: self.value@ }
    }
}

/// The headers as plain values.
pub open spec fn headers_view(headers: Seq<Header>) -> Seq<HeaderLine> {
    headers.map_values(|header: Header| header@)
}

/// The headers that every streamed answer carries: its content type, no
/// caching, and any origin allowed.
pub open spec fn stream_headers(content_type: Seq<char>) -> Seq<HeaderLine> {
    seq![
        HeaderLine { name: "content-type"@, value: content_type },
        HeaderLine { name: "cache-control"@, value: "no-cache"@ },
        HeaderLine { name: "access-control-allow-origin"@, value: "*"@ },
    ]
}

/// The header that lets a page read every header of the answer.
pub open spec fn expose_headers() -> HeaderLine {
    HeaderLine { name: "access-control-expose-headers"@, value: "*"@ }
}

/// The port to listen on: the configured one, or the default.
pub fn listen_port(configured: Option<u16>) -> (port: u16)
    ensures
        port == match configured {
            Some(port) => port,
            None => DEFAULT_PORT,
        },
{
    match configured {
        Some(port) => port,
        None => DEFAULT_PORT,
    }
}

/// A header with the given name and value.
pub fn header(name: &str, value: &str) -> (out: Header)
    ensures
        out@ == (HeaderLine { name: name@, value: value@ }),
{
    Header { name: String::from_str(name), value: String::from_str(value) }
}

/// The headers of a streamed answer of the given content type.
pub fn headers_for(content_type: &str) -> (headers: Vec<Header>)
    ensures
        headers_view(headers@) == stream_headers(content_type@),
{
    let mut headers: Vec<Header> = Vec::new();
    headers.push(header("content-type", content_type));
    headers.push(header("cache-control", "no-cache"));
    headers.push(header("access-control-allow-origin", "*"));
    headers
}

/// The answer of the health check.
pub fn health_check() -> (response: ApiResponse<String>)
    ensures
        response.success,
        response.data@ == HEALTH_MESSAGE@,
{
    ApiResponse::ok(String::from_str(HEALTH_MESSAGE))
}

/// The answer that lists the stations.
pub fn get_atc_stations() -> (response: ApiResponse<Vec<AtcStation>>)
    ensures
        response.success,
        stations_view(response.data@) == catalog_stations(),
{
    ApiResponse::ok(atc_stations())
}

/// The answer that lists the music sources.
pub fn get_music_sources() -> (response: ApiResponse<Vec<MusicSource>>)
    ensures
        response.success,
        sources_view(response.data@) == catalog_sources(),
{
    ApiResponse::ok(music_sources())
}

/// The view of an answer to a request for extraction.
pub open spec fn answer_view(answer: Result<ApiResponse<ExtractionResult>, RelayError>) -> Result<
    Extraction,
    Failure,
> {
    match answer {
        Ok(response) => Ok(response.data@),
        Err(error) => Err(error@),
    }
}

/// The answer to a request for extraction, given the run of the resolver
/// tool: the extraction in a successful envelope, or the failure.
pub fn extract_youtube_url(run: ToolRun) -> (answer: Result<
    ApiResponse<ExtractionResult>,
    RelayError,
>)
    ensures
        answer_view(answer) == outcome_of(run@),
        answer matches Ok(response) ==> response.success,
{
    match interpret_run(run) {
        Ok(extraction) => Ok(ApiResponse::ok(extraction)),
        Err(error) => Err(error),
    }
}

} // verus!
