//! The transcoding pipeline: the two commands that are chained, the source
//! they are started for, and the life of the process from its start to the
//! moment it is reaped.

use crate::api::{headers_for, headers_view, stream_headers, Header};
use crate::catalog::{find_music_source, source_with, sources_view, MusicSource, Source};
use crate::error::{Failure, RelayError};
use crate::text::texts;
use vstd::prelude::*;

verus! {

/// The content type of the transcoded audio.
pub const AUDIO_CONTENT_TYPE: &'static str = "audio/mpeg";

/// The two commands of a pipeline, each as a program followed by its
/// arguments. The standard output of the extractor is the standard input of
/// the transcoder; the standard output of the transcoder is the stream.
#[derive(Debug, Clone, PartialEq, Eq)]
pub struct PipelineCommand {
    pub extractor: Vec<String>,
    pub transcoder: Vec<String>,
}

/// A pipeline as a plain value.
pub struct Pipeline {
    pub extractor: Seq<Seq<char>>,
    pub transcoder: Seq<Seq<char>>,
}

impl View for PipelineCommand {
    type V = Pipeline;

    open spec fn view(&self) -> Pipeline {
        Pipeline {
            extractor: texts(self.extractor@),
            transcoder: texts(self.transcoder@),
        }
    }
}

/// The extractor writes the best audio format of `source_url` to its
/// standard output.
pub open spec fn extractor_line(source_url: Seq<char>) -> Seq<Seq<char>> {
    seq!["yt-dlp"@, "-f"@, "ba/b"@, "-o"@, "-"@, source_url]
}

/// The transcoder reads its standard input and writes MP3 audio of 128 kbit/s
/// without video to its standard output.
pub open spec fn transcoder_line() -> Seq<Seq<char>> {
    seq![
        "ffmpeg"@,
        "-i"@,
        "pipe:0"@,
        "-f"@,
        "mp3"@,
        "-b:a"@,
        "128k"@,
        "-vn"@,
        "-loglevel"@,
        "error"@,
        "pipe:1"@,
    ]
}

/// The pipeline that streams `source_url`.
pub open spec fn pipeline_for(source_url: Seq<char>) -> Pipeline {
    Pipeline { extractor: extractor_line(source_url), transcoder: transcoder_line() }
}

/// The pipeline for the source `source_id`, or `SourceNotFound` where
/// `sources` holds none of that identifier.
pub open spec fn planned(sources: Seq<Source>, source_id: Seq<char>) -> Result<
    Pipeline,
    Failure,
> {
    match source_with(sources, source_id) {
        Some(source) => Ok(pipeline_for(source.stream_url)),
        None => Err(Failure::SourceNotFound),
    }
}

/// The view of a planned pipeline.
pub open spec fn plan_view(plan: Result<PipelineCommand, RelayError>) -> Result<Pipeline, Failure> {
    match plan {
        Ok(command) => Ok(command@),
        Err(error) => Err(error@),
    }
}

/// Builds the two commands that stream `source_url`. Each argument is a word
/// of its own: no shell reads the URL.
pub fn pipeline_command(source_url: &str) -> (command: PipelineCommand)
    ensures
        command@ == pipeline_for(source_url@),
{
    let mut extractor: Vec<String> = Vec::new();
    extractor.push(String::from_str("yt-dlp"));
    extractor.push(String::from_str("-f"));
    extractor.push(String::from_str("ba/b"));
    extractor.push(String::from_str("-o"));
    extractor.push(String::from_str("-"));
    extractor.push(String::from_str(source_url));
    let mut transcoder: Vec<String> = Vec::new();
    transcoder.push(String::from_str("ffmpeg"));
    transcoder.push(String::from_str("-i"));
    transcoder.push(String::from_str("pipe:0"));
    transcoder.push(String::from_str("-f"));
    transcoder.push(String::from_str("mp3"));
    transcoder.push(String::from_str("-b:a"));
    transcoder.push(String::from_str("128k"));
    transcoder.push(String::from_str("-vn"));
    transcoder.push(String::from_str("-loglevel"));
    transcoder.push(String::from_str("error"));
    transcoder.push(String::from_str("pipe:1"));
    assert(texts(extractor@) =~= extractor_line(source_url@));
    assert(texts(transcoder@) =~= transcoder_line());
    PipelineCommand { extractor, transcoder }
}

/// Opens the audio stream of the source `source_id`: finds the source and
/// builds the pipeline to start for it. An identifier that `sources` does not
/// hold gives `SourceNotFound` and no command, so nothing is started for it.
pub fn open_audio_stream(sources: &Vec<MusicSource>, source_id: &str) -> (plan: Result<
    PipelineCommand,
    RelayError,
>)
    ensures
        plan_view(plan) == planned(sources_view(sources@), source_id@),
        plan is Err <==> source_with(sources_view(sources@), source_id@) is None,
{
    match find_music_source(sources, source_id) {
        Some(source) => Ok(pipeline_command(source.stream_url.as_str())),
        None => Err(RelayError::SourceNotFound),
    }
}

/// The headers of the transcoded stream.
pub fn audio_headers() -> (headers: Vec<Header>)
    ensures
        headers_view(headers@) == stream_headers(AUDIO_CONTENT_TYPE@),
{
    headers_for(AUDIO_CONTENT_TYPE)
}

/// Where a pipeline process stands in its life.
#[derive(Debug, Clone, Copy, PartialEq, Eq, Structural)]
pub enum LifecycleState {
    /// Started; nobody reads its output yet.
    Spawned,
    /// Its output is the body of a response.
    Running,
    /// It has ended and was waited for.
    Reaped,
}

/// What happens to a pipeline process.
#[derive(Debug, Clone, Copy, PartialEq, Eq, Structural)]
pub enum PipelineEvent {
    /// Its standard output was taken as the body of the response.
    OutputTaken,
    /// The client has all it wanted, or has gone.
    ConsumerGone,
    /// The wait for the process has returned.
    Exited,
}

/// What the owner of a pipeline process does after an event.
#[derive(Debug, Clone, Copy, PartialEq, Eq, Structural)]
pub enum PipelineAction {
    /// Start the wait for the end of the process as a task of its own, then
    /// answer with the stream.
    AwaitExit,
    /// Leave the wait for the end of the process running.
    KeepWaiting,
    /// The process is reaped: record that it ended.
    RecordExit,
    /// Nothing is left to do.
    Nothing,
}

/// The place of a state in the life of a process.
pub open spec fn rank(state: LifecycleState) -> nat {
    match state {
        LifecycleState::Spawned => 0,
        LifecycleState::Running => 1,
        LifecycleState::Reaped => 2,
    }
}

/// The state and the action after an event.
///
/// Taking the output sets a spawned process running. The end of the process
/// reaps it, whatever it did before. A consumer that goes changes nothing:
/// the wait goes on until the process has ended. A reaped process stays
/// reaped.
pub open spec fn after_event(state: LifecycleState, event: PipelineEvent) -> (
    LifecycleState,
    PipelineAction,
) {
    match (state, event) {
        (LifecycleState::Reaped, _) => (LifecycleState::Reaped, PipelineAction::Nothing),
        (_, PipelineEvent::Exited) => (LifecycleState::Reaped, PipelineAction::RecordExit),
        (LifecycleState::Spawned, PipelineEvent::OutputTaken) => (
            LifecycleState::Running,
            PipelineAction::AwaitExit,
        ),
        (LifecycleState::Running, PipelineEvent::OutputTaken) => (
            LifecycleState::Running,
            PipelineAction::Nothing,
        ),
        (_, PipelineEvent::ConsumerGone) => (state, PipelineAction::KeepWaiting),
    }
}

/// The state after a run of events.
pub open spec fn after_events(state: LifecycleState, events: Seq<PipelineEvent>) -> LifecycleState
    decreases events.len(),
{
    if events.len() == 0 {
        state
    } else {
        after_event(after_events(state, events.drop_last()), events.last()).0
    }
}

/// How often a run of events reaps the process.
pub open spec fn reaps(state: LifecycleState, events: Seq<PipelineEvent>) -> nat
    decreases events.len(),
{
    if events.len() == 0 {
        0
    } else {
        let before = after_events(state, events.drop_last());
        let count = reaps(state, events.drop_last());
        if after_event(before, events.last()).1 == PipelineAction::RecordExit {
            count + 1
        } else {
            count
        }
    }
}

/// A pipeline process and its place in life.
#[derive(Debug, Clone, PartialEq, Eq)]
pub struct PipelineProcess {
    pub command_line: PipelineCommand,
    pub state: LifecycleState,
}

impl PipelineProcess {
    /// Takes the outcome of starting `command_line`: a process in the state
    /// `Spawned`, or `SpawnError` where it did not start.
    pub fn started(command_line: PipelineCommand, spawned: bool) -> (process: Result<
        PipelineProcess,
        RelayError,
    >)
        ensures
            spawned ==> process == Ok::<PipelineProcess, RelayError>(
                PipelineProcess { command_line, state: LifecycleState::Spawned },
            ),
            !spawned ==> process == Err::<PipelineProcess, RelayError>(RelayError::SpawnError),
    {
        if spawned {
            Ok(PipelineProcess { command_line, state: LifecycleState::Spawned })
        } else {
            Err(RelayError::SpawnError)
        }
    }

    /// Takes an event and says what to do.
    pub fn on_event(&mut self, event: PipelineEvent) -> (action: PipelineAction)
        ensures
            (final(self).state, action) == after_event(old(self).state, event),
            final(self).command_line == old(self).command_line,
    {
        match (self.state, event) {
            (LifecycleState::Reaped, _) => PipelineAction::Nothing,
            (_, PipelineEvent::Exited) => {
                self.state = LifecycleState::Reaped;
                PipelineAction::RecordExit
            },
            (LifecycleState::Spawned, PipelineEvent::OutputTaken) => {
                self.state = LifecycleState::Running;
                PipelineAction::AwaitExit
            },
            (LifecycleState::Running, PipelineEvent::OutputTaken) => PipelineAction::Nothing,
            (_, PipelineEvent::ConsumerGone) => PipelineAction::KeepWaiting,
        }
    }
}

/// The life of a process runs in one direction: no event takes it back.
pub proof fn lemma_life_runs_forward(state: LifecycleState, event: PipelineEvent)
    ensures
        rank(state) <= rank(after_event(state, event).0),
        state == LifecycleState::Reaped ==> after_event(state, event).0 == LifecycleState::Reaped,
{
}

/// A consumer that goes neither reaps the process nor ends the wait for it.
pub proof fn lemma_consumer_cannot_end_the_wait(state: LifecycleState)
    ensures
        after_event(state, PipelineEvent::ConsumerGone).0 == state,
        state != LifecycleState::Reaped ==> after_event(state, PipelineEvent::ConsumerGone).1
            == PipelineAction::KeepWaiting,
{
}

/// Whatever happens to a process that was not reaped before, it is reaped
/// once where its end is among the events, whatever the consumer did before
/// or after, and never else.
pub proof fn lemma_reaped_exactly_once(state: LifecycleState, events: Seq<PipelineEvent>)
    requires
        state != LifecycleState::Reaped,
    ensures
        events.contains(PipelineEvent::Exited) ==> reaps(state, events) == 1 && after_events(
            state,
            events,
        ) == LifecycleState::Reaped,
        !events.contains(PipelineEvent::Exited) ==> reaps(state, events) == 0 && after_events(
            state,
            events,
        ) != LifecycleState::Reaped,
    decreases events.len(),
{
    if events.len() > 0 {
        let earlier = events.drop_last();
        lemma_reaped_exactly_once(state, earlier);
        if earlier.contains(PipelineEvent::Exited) {
            let at = choose|i: int| 0 <= i < earlier.len() && earlier[i] == PipelineEvent::Exited;
            assert(events[at] == PipelineEvent::Exited);
        }
        if events.contains(PipelineEvent::Exited) && events.last() != PipelineEvent::Exited {
            let at = choose|i: int| 0 <= i < events.len() && events[i] == PipelineEvent::Exited;
            assert(earlier[at] == PipelineEvent::Exited);
        }
        if events.last() == PipelineEvent::Exited {
            assert(events[events.len() - 1] == PipelineEvent::Exited);
        }
    }
}

} // verus!
