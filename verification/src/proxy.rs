//! The relay of an upstream URL: the session that follows redirections by
//! hand, the decision taken on each reply of the upstream server, and the
//! head of the response that goes back to the client.

use crate::api::{
    expose_headers, header, headers_for, headers_view, stream_headers, Header, HeaderLine,
};
use crate::error::{Failure, RelayError};
use crate::manifest::{rewrite_m3u8_manifest, rewritten};
use crate::text::{
    contains, decimal, decimal_string, occurs_in, option_text, sub_chars, to_chars,
};
use crate::urls::{find_path, normalize_url, normalized, path_of};
use vstd::prelude::*;

verus! {

/// The number of redirections that one relay follows.
pub const MAX_REDIRECTS: u32 = 10;

/// The content type of a rewritten playlist.
pub const MANIFEST_CONTENT_TYPE: &'static str = "application/vnd.apple.mpegurl";

/// The content type of a binary response whose upstream reply names none.
pub const DEFAULT_CONTENT_TYPE: &'static str = "application/octet-stream";

/// How the upstream server is asked.
#[derive(Debug, Clone, Copy, PartialEq, Eq, Structural)]
pub struct FetchPolicy {
    /// Certificates that do not validate are accepted.
    pub accept_invalid_certificates: bool,
    /// The transport follows no redirection by itself.
    pub follow_redirects: bool,
    /// The seconds after which an attempt to connect is given up.
    pub connect_timeout_seconds: u64,
    /// The seconds after which an idle connection is closed, if it ever is.
    pub idle_timeout_seconds: Option<u64>,
}

/// The policy of the relay: origins with invalid certificates are tolerated,
/// redirections are left to the session, connecting is bounded, and a
/// connection that streams is never closed for being idle.
pub fn fetch_policy() -> (policy: FetchPolicy)
    ensures
        policy == (FetchPolicy {
            accept_invalid_certificates: true,
            follow_redirects: false,
            connect_timeout_seconds: 10,
            idle_timeout_seconds: None,
        }),
{
    FetchPolicy {
        accept_invalid_certificates: true,
        follow_redirects: false,
        connect_timeout_seconds: 10,
        idle_timeout_seconds: None,
    }
}

/// The state of one relay request.
#[derive(Debug, Clone, PartialEq, Eq)]
pub struct ProxySession {
    /// The URL that is asked next.
    pub current_url: String,
    /// The redirections followed so far.
    pub redirect_count: u32,
}

/// A session as a plain value.
pub struct Session {
    pub current_url: Seq<char>,
    pub redirect_count: nat,
}

impl View for ProxySession {
    type V = Session;

    open spec fn view(&self) -> Session {
        Session { current_url: self.current_url@, redirect_count: self.redirect_count as nat }
    }
}

impl Session {
    /// A session never counts more redirections than the relay follows.
    pub open spec fn wf(self) -> bool {
        self.redirect_count <= MAX_REDIRECTS
    }
}

/// What a fetch of the upstream URL came back with.
#[derive(Debug, Clone, PartialEq, Eq)]
pub enum UpstreamReply {
    /// No connection was made; holds the transport's message.
    Unreachable(String),
    /// The upstream server answered.
    Answered {
        status: u16,
        location: Option<String>,
        content_type: Option<String>,
        content_length: Option<u64>,
    },
}

/// A reply as a plain value.
pub enum Reply {
    Unreachable(Seq<char>),
    Answered {
        status: u16,
        location: Option<Seq<char>>,
        content_type: Option<Seq<char>>,
        content_length: Option<u64>,
    },
}

impl View for UpstreamReply {
    type V = Reply;

    open spec fn view(&self) -> Reply {
        match *self {
            UpstreamReply::Unreachable(reason) => Reply::Unreachable(reason@),
            UpstreamReply::Answered { status, location, content_type, content_length } => {
                Reply::Answered {
                    status,
                    location: option_text(location),
                    content_type: option_text(content_type),
                    content_length,
                }
            },
        }
    }
}

/// The body of a relayed response.
#[derive(Debug, Clone, PartialEq, Eq)]
pub enum RelayBody {
    /// A rewritten playlist, held in full.
    Text(String),
    /// The bytes of the upstream body, handed on as they arrive.
    Stream,
}

/// A body as a plain value.
pub enum Body {
    Text(Seq<char>),
    Stream,
}

/// The response that goes back to the client.
#[derive(Debug, Clone, PartialEq, Eq)]
pub struct RelayedResponse {
    pub content_type: String,
    pub content_length: Option<u64>,
    pub body: RelayBody,
}

/// A response as a plain value.
pub struct Response {
    pub content_type: Seq<char>,
    pub content_length: Option<u64>,
    pub body: Body,
}

impl View for RelayedResponse {
    type V = Response;

    open spec fn view(&self) -> Response {
        Response {
            content_type: self.content_type@,
            content_length: self.content_length,
            body: match self.body {
                RelayBody::Text(text) => Body::Text(text@),
                RelayBody::Stream => Body::Stream,
            },
        }
    }
}

/// What the relay does after a reply.
#[derive(Debug, Clone, PartialEq, Eq)]
pub enum RelayStep {
    /// Ask again: the session now points at the target of the redirection.
    Follow,
    /// Read the whole body as text and hand it to `finish_manifest`.
    ReadManifest,
    /// Answer with this head and stream the upstream body behind it.
    Stream(RelayedResponse),
    /// Answer with this failure.
    Fail(RelayError),
}

/// A step as a plain value.
pub enum Step {
    Follow,
    ReadManifest,
    Stream(Response),
    Fail(Failure),
}

impl View for RelayStep {
    type V = Step;

    open spec fn view(&self) -> Step {
        match *self {
            RelayStep::Follow => Step::Follow,
            RelayStep::ReadManifest => Step::ReadManifest,
            RelayStep::Stream(response) => Step::Stream(response@),
            RelayStep::Fail(error) => Step::Fail(error@),
        }
    }
}

/// The statuses that redirect: 300 to 399.
pub open spec fn is_redirection(status: u16) -> bool {
    300 <= status < 400
}

/// The text `.m3u8`.
pub open spec fn playlist_extension() -> Seq<char> {
    seq!['.', 'm', '3', 'u', '8']
}

/// The text `/manifest/`.
pub open spec fn manifest_segment() -> Seq<char> {
    seq!['/', 'm', 'a', 'n', 'i', 'f', 'e', 's', 't', '/']
}

/// The path of `url` holds `.m3u8` or `/manifest/`.
pub open spec fn is_manifest(url: Seq<char>) -> bool {
    occurs_in(path_of(url), playlist_extension()) || occurs_in(path_of(url), manifest_segment())
}

/// The session a relay of `target` begins with.
pub open spec fn start_of(target: Seq<char>) -> Session {
    Session { current_url: target, redirect_count: 0 }
}

/// The head of a streamed response: the content type of the upstream reply,
/// or the default where it names none, and its content length.
pub open spec fn streamed(
    content_type: Option<Seq<char>>,
    content_length: Option<u64>,
) -> Response {
    Response {
        content_type: match content_type {
            Some(named) => named,
            None => DEFAULT_CONTENT_TYPE@,
        },
        content_length,
        body: Body::Stream,
    }
}

/// The session and the step after a reply.
///
/// A reply that did not connect fails the relay. A redirection fails it
/// where ten were followed already or where it names no location; else the
/// session moves to the location. Any other reply ends the relay: the body is
/// read as a playlist where the path of the current URL says so, and
/// streamed else.
pub open spec fn after_reply(session: Session, reply: Reply) -> (Session, Step) {
    match reply {
        Reply::Unreachable(reason) => (session, Step::Fail(Failure::UpstreamConnectError(reason))),
        Reply::Answered { status, location, content_type, content_length } => {
            if is_redirection(status) {
                if session.redirect_count >= MAX_REDIRECTS {
                    (session, Step::Fail(Failure::TooManyRedirects))
                } else {
                    match location {
                        None => (session, Step::Fail(Failure::InvalidRedirect)),
                        Some(target) => (
                            Session {
                                current_url: target,
                                redirect_count: session.redirect_count + 1,
                            },
                            Step::Follow,
                        ),
                    }
                }
            } else if is_manifest(session.current_url) {
                (session, Step::ReadManifest)
            } else {
                (session, Step::Stream(streamed(content_type, content_length)))
            }
        },
    }
}

/// The response for a playlist body read from `url`, or the failure where
/// the body could not be read.
pub open spec fn manifest_outcome(url: Seq<char>, body: Option<Seq<char>>) -> Result<
    Response,
    Failure,
> {
    match body {
        Some(text) => Ok(
            Response {
                content_type: MANIFEST_CONTENT_TYPE@,
                content_length: None,
                body: Body::Text(rewritten(text, url)),
            },
        ),
        None => Err(Failure::ManifestReadError),
    }
}

/// The header that gives the length of the body.
pub open spec fn length_header(length: u64) -> HeaderLine {
    HeaderLine { name: "content-length"@, value: decimal(length as nat) }
}

/// The headers of a response: those of every streamed answer, for a streamed
/// body the leave to read them all, and the content length where it is known.
pub open spec fn response_headers(response: Response) -> Seq<HeaderLine> {
    let fixed = match response.body {
        Body::Text(_) => stream_headers(response.content_type),
        Body::Stream => stream_headers(response.content_type).push(expose_headers()),
    };
    match response.content_length {
        Some(length) => fixed.push(length_header(length)),
        None => fixed,
    }
}

/// The view of a result of `finish_manifest`.
pub open spec fn outcome_view(outcome: Result<RelayedResponse, RelayError>) -> Result<
    Response,
    Failure,
> {
    match outcome {
        Ok(response) => Ok(response@),
        Err(error) => Err(error@),
    }
}

/// Whether `status` redirects.
pub fn status_redirects(status: u16) -> (yes: bool)
    ensures
        yes == is_redirection(status),
{
    300 <= status && status < 400
}

/// Whether a reply fetched from `url` is read as a playlist.
pub fn is_manifest_url(url: &str) -> (yes: bool)
    ensures
        yes == is_manifest(url@),
{
    let chars = to_chars(url);
    let (start, end) = find_path(&chars);
    let path = sub_chars(&chars, start, end);
    let extension: Vec<char> = vec!['.', 'm', '3', 'u', '8'];
    let segment: Vec<char> = vec!['/', 'm', 'a', 'n', 'i', 'f', 'e', 's', 't', '/'];
    contains(&path, &extension) || contains(&path, &segment)
}

impl RelayedResponse {
    /// The headers of this response.
    pub fn headers(&self) -> (headers: Vec<Header>)
        ensures
            headers_view(headers@) == response_headers(self@),
    {
        let mut headers = headers_for(self.content_type.as_str());
        match self.body {
            RelayBody::Text(_) => {},
            RelayBody::Stream => {
                headers.push(header("access-control-expose-headers", "*"));
            },
        }
        match self.content_length {
            Some(length) => {
                let value = decimal_string(length);
                headers.push(header("content-length", value.as_str()));
            },
            None => {},
        }
        headers
    }
}

impl ProxySession {
    /// The session a relay of `target_url` begins with.
    pub fn new(target_url: &str) -> (session: ProxySession)
        ensures
            session@ == start_of(target_url@),
            session@.wf(),
    {
        ProxySession { current_url: String::from_str(target_url), redirect_count: 0 }
    }

    /// The URL to ask next: the current URL, repaired where it names port
    /// 80 under `https`.
    pub fn request_url(&self) -> (url: String)
        ensures
            url@ == normalized(self@.current_url),
    {
        normalize_url(self.current_url.as_str())
    }

    /// Takes the reply to the last fetch and says what to do next.
    pub fn on_reply(&mut self, reply: UpstreamReply) -> (step: RelayStep)
        ensures
            (final(self)@, step@) == after_reply(old(self)@, reply@),
            old(self)@.wf() ==> final(self)@.wf(),
    {
        match reply {
            UpstreamReply::Unreachable(reason) => RelayStep::Fail(
                RelayError::UpstreamConnectError(reason),
            ),
            UpstreamReply::Answered { status, location, content_type, content_length } => {
                if status_redirects(status) {
                    if self.redirect_count >= MAX_REDIRECTS {
                        RelayStep::Fail(RelayError::TooManyRedirects)
                    } else {
                        match location {
                            None => RelayStep::Fail(RelayError::InvalidRedirect),
                            Some(target) => {
                                self.current_url = target;
                                self.redirect_count = self.redirect_count + 1;
                                RelayStep::Follow
                            },
                        }
                    }
                } else if is_manifest_url(self.current_url.as_str()) {
                    RelayStep::ReadManifest
                } else {
                    let named = match content_type {
                        Some(named) => named,
                        None => String::from_str(DEFAULT_CONTENT_TYPE),
                    };
                    RelayStep::Stream(
                        RelayedResponse {
                            content_type: named,
                            content_length,
                            body: RelayBody::Stream,
                        },
                    )
                }
            },
        }
    }

    /// Ends a relay whose reply is a playlist: the body, rewritten against
    /// the current URL, under the playlist content type. Where the body could
    /// not be read the relay fails.
    pub fn finish_manifest(&self, body: Option<&str>) -> (outcome: Result<
        RelayedResponse,
        RelayError,
    >)
        ensures
            outcome_view(outcome) == manifest_outcome(
                self@.current_url,
                match body {
                    Some(text) => Some(text@),
                    None => None,
                },
            ),
    {
        match body {
            Some(text) => Ok(
                RelayedResponse {
                    content_type: String::from_str(MANIFEST_CONTENT_TYPE),
                    content_length: None,
                    body: RelayBody::Text(rewrite_m3u8_manifest(text, self.current_url.as_str())),
                },
            ),
            None => Err(RelayError::ManifestReadError),
        }
    }
}

/// How a relay ended: its last step and the number of fetches it made.
pub struct RelayEnd {
    pub step: Step,
    pub fetches: nat,
}

/// How a relay ends that gets `replies` in turn. Nothing where the replies
/// run out before the relay ends.
pub open spec fn relay_over(session: Session, replies: Seq<Reply>) -> Option<RelayEnd>
    decreases replies.len(),
{
    if replies.len() == 0 {
        None
    } else {
        let (next, step) = after_reply(session, replies[0]);
        if step is Follow {
            match relay_over(next, replies.drop_first()) {
                Some(end) => Some(RelayEnd { step: end.step, fetches: end.fetches + 1 }),
                None => None,
            }
        } else {
            Some(RelayEnd { step, fetches: 1 })
        }
    }
}

/// The reply is a redirection that names a location.
pub open spec fn redirects(reply: Reply) -> bool {
    &&& reply matches Reply::Answered { status, location, .. }
    &&& is_redirection(status)
    &&& location is Some
}

/// The session after `hops` redirections of `replies` were followed.
pub open spec fn after_hops(session: Session, replies: Seq<Reply>, hops: nat) -> Session {
    if hops == 0 {
        session
    } else {
        Session {
            current_url: replies[hops - 1]->location->0,
            redirect_count: session.redirect_count + hops,
        }
    }
}

/// A relay ends: where a session has followed `n` redirections, at most ten,
/// any `11 - n` replies bring it to a step other than `Follow`, within as
/// many fetches. A fresh session ends within eleven fetches, that is ten
/// redirections.
pub proof fn lemma_relay_ends(session: Session, replies: Seq<Reply>)
    requires
        session.wf(),
        replies.len() > MAX_REDIRECTS - session.redirect_count,
    ensures
        relay_over(session, replies) is Some,
        !(relay_over(session, replies)->0.step is Follow),
        1 <= relay_over(session, replies)->0.fetches <= MAX_REDIRECTS - session.redirect_count + 1,
    decreases replies.len(),
{
    let (next, step) = after_reply(session, replies[0]);
    if step is Follow {
        lemma_relay_ends(next, replies.drop_first());
    }
}

/// A chain of redirections that the limit allows is followed to its end:
/// the reply behind `hops` redirections is judged at the location that the
/// last of them named, after `hops + 1` fetches.
pub proof fn lemma_chain_is_followed(session: Session, replies: Seq<Reply>, hops: nat)
    requires
        session.redirect_count + hops <= MAX_REDIRECTS,
        hops < replies.len(),
        forall|i: int| 0 <= i < hops ==> redirects(#[trigger] replies[i]),
        !redirects(replies[hops as int]),
    ensures
        relay_over(session, replies) == Some(
            RelayEnd {
                step: after_reply(after_hops(session, replies, hops), replies[hops as int]).1,
                fetches: hops + 1,
            },
        ),
    decreases hops,
{
    if hops > 0 {
        let (next, step) = after_reply(session, replies[0]);
        let rest = replies.drop_first();
        assert forall|i: int| 0 <= i < hops - 1 implies redirects(#[trigger] rest[i]) by {
            assert(rest[i] == replies[i + 1]);
        }
        lemma_chain_is_followed(next, rest, (hops - 1) as nat);
        assert(after_hops(next, rest, (hops - 1) as nat) == after_hops(session, replies, hops));
    }
}

/// A chain that never stops redirecting fails: where a session has followed
/// `n` redirections and the next `11 - n` replies redirect as well, the relay
/// ends with `TooManyRedirects` at the last of them. A fresh session fails at
/// the eleventh redirection.
pub proof fn lemma_endless_redirection_fails(session: Session, replies: Seq<Reply>)
    requires
        session.wf(),
        replies.len() > MAX_REDIRECTS - session.redirect_count,
        forall|i: int|
            0 <= i <= MAX_REDIRECTS - session.redirect_count ==> redirects(#[trigger] replies[i]),
    ensures
        relay_over(session, replies) == Some(
            RelayEnd {
                step: Step::Fail(Failure::TooManyRedirects),
                fetches: (MAX_REDIRECTS - session.redirect_count + 1) as nat,
            },
        ),
    decreases replies.len(),
{
    let (next, step) = after_reply(session, replies[0]);
    if session.redirect_count < MAX_REDIRECTS {
        let rest = replies.drop_first();
        assert forall|i: int| 0 <= i <= MAX_REDIRECTS - next.redirect_count implies redirects(
            #[trigger] rest[i],
        ) by {
            assert(rest[i] == replies[i + 1]);
        }
        lemma_endless_redirection_fails(next, rest);
    }
}

/// A redirection without a location fails the relay with `InvalidRedirect`
/// as long as the session may still follow one; the session does not move.
pub proof fn lemma_missing_location_fails(
    session: Session,
    status: u16,
    content_type: Option<Seq<char>>,
    content_length: Option<u64>,
)
    requires
        is_redirection(status),
        session.redirect_count < MAX_REDIRECTS,
    ensures
        after_reply(
            session,
            Reply::Answered { status, location: None, content_type, content_length },
        ) == (session, Step::Fail(Failure::InvalidRedirect)),
{
}

} // verus!
