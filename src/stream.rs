use vstd::prelude::*;
use crate::session::{needs_refresh, refresh_due};
use crate::status::{client_error_status, is_client_error, is_server_error, server_error_status};

verus! {

/// Origin of the upstream stream server.
pub const STREAM_BASE: &'static str = "https://cctv.malangkota.go.id";

/// Page whose visit yields the session cookies; also sent as `Referer`.
pub const SITE_PAGE: &'static str = "https://cctv.malangkota.go.id/sebaran-cctv";

/// Browser identity presented to both upstream services.
pub const USER_AGENT: &'static str = "Mozilla/5.0 (Macintosh; Intel Mac OS X 10_15_7) AppleWebKit/537.36 (KHTML, like Gecko) Chrome/133.0.0.0 Safari/537.36";

/// Path below the origin under which streams are served.
pub const STREAM_DIR: &'static str = "/cctv-stream/";

pub const PLAYLIST_SUFFIX: &'static str = ".m3u8";

pub const SEGMENT_SUFFIX: &'static str = ".ts";

pub const PLAYLIST_CONTENT_TYPE: &'static str = "application/vnd.apple.mpegurl";

pub const SEGMENT_CONTENT_TYPE: &'static str = "video/mp2t";

pub const OPAQUE_CONTENT_TYPE: &'static str = "application/octet-stream";

pub const PLAYLIST_CACHE_CONTROL: &'static str = "no-cache, no-store, must-revalidate";

pub const SEGMENT_CACHE_CONTROL: &'static str = "public, max-age=2";

/// Status an upstream answers with when the session cookies have expired.
pub const FORBIDDEN: u16 = 403;

/// `s` ends with `suffix`.
pub open spec fn ends_with(s: Seq<char>, suffix: Seq<char>) -> bool {
    suffix.len() <= s.len() && s.subrange(s.len() - suffix.len(), s.len() as int) == suffix
}

pub open spec fn is_playlist_path(path: Seq<char>) -> bool {
    ends_with(path, PLAYLIST_SUFFIX@)
}

pub open spec fn is_segment_path(path: Seq<char>) -> bool {
    ends_with(path, SEGMENT_SUFFIX@)
}

/// Content type guessed from the suffix of a stream path.
pub open spec fn inferred_content_type(path: Seq<char>) -> Seq<char> {
    if is_playlist_path(path) {
        PLAYLIST_CONTENT_TYPE@
    } else if is_segment_path(path) {
        SEGMENT_CONTENT_TYPE@
    } else {
        OPAQUE_CONTENT_TYPE@
    }
}

/// Cache policy of a stream path: playlists change constantly and are never
/// cached; media segments may be cached briefly.
pub open spec fn cache_policy(path: Seq<char>) -> Seq<char> {
    if is_playlist_path(path) {
        PLAYLIST_CACHE_CONTROL@
    } else {
        SEGMENT_CACHE_CONTROL@
    }
}

/// Whether `s` ends with `suffix`, compared character by character.
pub fn has_suffix(s: &str, suffix: &str) -> (r: bool)
    ensures
        r == ends_with(s@, suffix@),
{
    let n = s.unicode_len();
    let m = suffix.unicode_len();
    if m > n {
        return false;
    }
    let start: usize = n - m;
    let mut i: usize = 0;
    while i < m
        invariant
            n == s@.len(),
            m == suffix@.len(),
            m <= n,
            start == n - m,
            i <= m,
            forall|k: int| 0 <= k < i ==> s@[start + k] == suffix@[k],
        decreases m - i,
    {
        if s.get_char(start + i) != suffix.get_char(i) {
            assert(s@.subrange(start as int, n as int)[i as int] != suffix@[i as int]);
            return false;
        }
        i = i + 1;
    }
    assert(s@.subrange(start as int, n as int) =~= suffix@);
    true
}

/// Upstream URL of a stream path: the path is taken verbatim, sub-directories
/// included.
pub fn stream_url(path: &str) -> (r: String)
    ensures
        r@ == STREAM_BASE@ + STREAM_DIR@ + path@,
{
    let url = String::from_str(STREAM_BASE);
    let url = url.concat(STREAM_DIR);
    url.concat(path)
}

/// Content type of a relayed stream body: the upstream's own header when it
/// sent one, otherwise a guess from the path's suffix.
pub fn content_type_for(path: &str, upstream: Option<String>) -> (r: String)
    ensures
        upstream is Some ==> r@ == upstream->0@,
        upstream is None ==> r@ == inferred_content_type(path@),
{
    match upstream {
        Some(ct) => ct,
        None => {
            if has_suffix(path, PLAYLIST_SUFFIX) {
                String::from_str(PLAYLIST_CONTENT_TYPE)
            } else if has_suffix(path, SEGMENT_SUFFIX) {
                String::from_str(SEGMENT_CONTENT_TYPE)
            } else {
                String::from_str(OPAQUE_CONTENT_TYPE)
            }
        },
    }
}

/// `Cache-Control` of a relayed stream body; it depends on the path alone.
pub fn cache_control_for(path: &str) -> (r: &'static str)
    ensures
        r@ == cache_policy(path@),
{
    if has_suffix(path, PLAYLIST_SUFFIX) {
        PLAYLIST_CACHE_CONTROL
    } else {
        SEGMENT_CACHE_CONTROL
    }
}

/// Headers that go with a relayed stream body.
pub struct RelayHeaders {
    pub content_type: String,
    pub cache_control: String,
}

/// Headers of a successful stream relay.
pub fn relay_headers(path: &str, upstream_content_type: Option<String>) -> (r: RelayHeaders)
    ensures
        upstream_content_type is Some ==> r.content_type@ == upstream_content_type->0@,
        upstream_content_type is None ==> r.content_type@ == inferred_content_type(path@),
        r.cache_control@ == cache_policy(path@),
{
    let content_type = content_type_for(path, upstream_content_type);
    let cache_control = String::from_str(cache_control_for(path));
    RelayHeaders { content_type, cache_control }
}

/// What is sent back for a stream request.
#[derive(Clone, Copy, Debug, PartialEq, Eq, Structural)]
pub enum StreamReply {
    /// 200 with the upstream body, byte for byte, and the relay headers.
    Relay,
    /// The upstream's own 4xx or 5xx status, with a short diagnostic body.
    UpstreamError { status: u16 },
    /// 502: the upstream could not be reached.
    BadGateway,
}

/// Reply owed for an upstream answer with `status`.
pub open spec fn reply_for_status(status: u16) -> StreamReply {
    if client_error_status(status) || server_error_status(status) {
        StreamReply::UpstreamError { status }
    } else {
        StreamReply::Relay
    }
}

/// Classifies an upstream answer: error statuses are passed through, all
/// others relay the body.
pub fn classify_upstream_status(status: u16) -> (r: StreamReply)
    ensures
        r == reply_for_status(status),
{
    if is_client_error(status) || is_server_error(status) {
        StreamReply::UpstreamError { status }
    } else {
        StreamReply::Relay
    }
}

/// Where a stream request stands.
#[derive(Clone, Copy, Debug, PartialEq, Eq, Structural)]
pub enum StreamPhase {
    /// Nothing done yet.
    Idle,
    /// The session was too old; waiting for its renewal.
    ProactiveRefresh,
    /// The request was sent once; waiting for the answer.
    FirstAttempt,
    /// The first answer was 403; waiting for the renewed session.
    ReactiveRefresh,
    /// The request was sent again; waiting for the answer.
    Retry,
    /// The reply has been decided.
    Done,
}

/// What the host reports to a stream request.
#[derive(Clone, Copy, Debug, PartialEq, Eq, Structural)]
pub enum StreamEvent {
    /// The request arrived at `now`; the current session dates from `fetched_at`.
    Begin { now: u64, fetched_at: u64 },
    /// A new session was built and installed.
    SessionRefreshed,
    /// The upstream answered with `status`.
    UpstreamStatus { status: u16 },
    /// The upstream could not be reached, or timed out.
    UpstreamUnreachable,
}

/// What the host is to do next for a stream request.
#[derive(Clone, Copy, Debug, PartialEq, Eq, Structural)]
pub enum StreamAction {
    /// Build a new session client and install it.
    RefreshSession,
    /// Send the request upstream with the current session client.
    SendRequest,
    /// Answer the caller.
    Respond { reply: StreamReply },
}

/// One transition of a stream request: the next phase, and the action the
/// host is to take (`None` for an event that the phase does not expect, which
/// changes nothing).
pub open spec fn stream_next(phase: StreamPhase, event: StreamEvent) -> (StreamPhase, Option<StreamAction>) {
    match (phase, event) {
        (StreamPhase::Idle, StreamEvent::Begin { now, fetched_at }) => {
            if refresh_due(fetched_at, now) {
                (StreamPhase::ProactiveRefresh, Some(StreamAction::RefreshSession))
            } else {
                (StreamPhase::FirstAttempt, Some(StreamAction::SendRequest))
            }
        },
        (StreamPhase::ProactiveRefresh, StreamEvent::SessionRefreshed) => {
            (StreamPhase::FirstAttempt, Some(StreamAction::SendRequest))
        },
        (StreamPhase::FirstAttempt, StreamEvent::UpstreamStatus { status }) => {
            if status == FORBIDDEN {
                (StreamPhase::ReactiveRefresh, Some(StreamAction::RefreshSession))
            } else {
                (StreamPhase::Done, Some(StreamAction::Respond { reply: reply_for_status(status) }))
            }
        },
        (StreamPhase::ReactiveRefresh, StreamEvent::SessionRefreshed) => {
            (StreamPhase::Retry, Some(StreamAction::SendRequest))
        },
        (StreamPhase::Retry, StreamEvent::UpstreamStatus { status }) => {
            (StreamPhase::Done, Some(StreamAction::Respond { reply: reply_for_status(status) }))
        },
        (StreamPhase::FirstAttempt, StreamEvent::UpstreamUnreachable) => {
            (StreamPhase::Done, Some(StreamAction::Respond { reply: StreamReply::BadGateway }))
        },
        (StreamPhase::Retry, StreamEvent::UpstreamUnreachable) => {
            (StreamPhase::Done, Some(StreamAction::Respond { reply: StreamReply::BadGateway }))
        },
        _ => (phase, None),
    }
}

/// The course of one stream request, driven by the host's reports.
pub struct StreamExchange {
    phase: StreamPhase,
}

impl StreamExchange {
    pub closed spec fn spec_phase(&self) -> StreamPhase {
        self.phase
    }

    /// A request that has not started yet.
    pub fn new() -> (r: Self)
        ensures
            r.spec_phase() == StreamPhase::Idle,
    {
        StreamExchange { phase: StreamPhase::Idle }
    }

    /// Where the request stands.
    pub fn phase(&self) -> (r: StreamPhase)
        ensures
            r == self.spec_phase(),
    {
        self.phase
    }

    /// Takes in one report of the host and says what to do next.
    pub fn step(&mut self, event: StreamEvent) -> (r: Option<StreamAction>)
        ensures
            (final(self).spec_phase(), r) == stream_next(old(self).spec_phase(), event),
    {
        let (phase, action) = match (self.phase, event) {
            (StreamPhase::Idle, StreamEvent::Begin { now, fetched_at }) => {
                if needs_refresh(fetched_at, now) {
                    (StreamPhase::ProactiveRefresh, Some(StreamAction::RefreshSession))
                } else {
                    (StreamPhase::FirstAttempt, Some(StreamAction::SendRequest))
                }
            },
            (StreamPhase::ProactiveRefresh, StreamEvent::SessionRefreshed) => {
                (StreamPhase::FirstAttempt, Some(StreamAction::SendRequest))
            },
            (StreamPhase::FirstAttempt, StreamEvent::UpstreamStatus { status }) => {
                if status == FORBIDDEN {
                    (StreamPhase::ReactiveRefresh, Some(StreamAction::RefreshSession))
                } else {
                    let reply = classify_upstream_status(status);
                    (StreamPhase::Done, Some(StreamAction::Respond { reply }))
                }
            },
            (StreamPhase::ReactiveRefresh, StreamEvent::SessionRefreshed) => {
                (StreamPhase::Retry, Some(StreamAction::SendRequest))
            },
            (StreamPhase::Retry, StreamEvent::UpstreamStatus { status }) => {
                let reply = classify_upstream_status(status);
                (StreamPhase::Done, Some(StreamAction::Respond { reply }))
            },
            (StreamPhase::FirstAttempt, StreamEvent::UpstreamUnreachable) => {
                (StreamPhase::Done, Some(StreamAction::Respond { reply: StreamReply::BadGateway }))
            },
            (StreamPhase::Retry, StreamEvent::UpstreamUnreachable) => {
                (StreamPhase::Done, Some(StreamAction::Respond { reply: StreamReply::BadGateway }))
            },
            (p, _) => (p, None),
        };
        self.phase = phase;
        action
    }
}

/// A playlist path is never cached, whatever the upstream sent.
pub proof fn lemma_playlist_never_cached(path: Seq<char>)
    requires
        is_playlist_path(path),
    ensures
        cache_policy(path) == PLAYLIST_CACHE_CONTROL@,
{
}

/// A segment path without an upstream content type is served as MPEG-TS.
pub proof fn lemma_segment_content_type(path: Seq<char>)
    requires
        is_segment_path(path),
    ensures
        inferred_content_type(path) == SEGMENT_CONTENT_TYPE@,
{
    reveal_strlit(".ts");
    reveal_strlit(".m3u8");
    let n = path.len();
    assert(path.subrange(n - 3, n as int)[2] == 's');
    if is_playlist_path(path) {
        assert(path.subrange(n - 5, n as int)[4] == '8');
    }
}

/// The actions a stream request issues from `phase` on, given the host's
/// reports in order; events that are not expected issue nothing.
pub open spec fn stream_run(phase: StreamPhase, events: Seq<StreamEvent>) -> (StreamPhase, Seq<StreamAction>)
    decreases events.len(),
{
    if events.len() == 0 {
        (phase, Seq::empty())
    } else {
        let (next, action) = stream_next(phase, events[0]);
        let (last, rest) = stream_run(next, events.drop_first());
        match action {
            Some(a) => (last, seq![a] + rest),
            None => (last, rest),
        }
    }
}

/// Number of actions of `actions` that satisfy `f`.
pub open spec fn count_actions(actions: Seq<StreamAction>, f: spec_fn(StreamAction) -> bool) -> nat
    decreases actions.len(),
{
    if actions.len() == 0 {
        0
    } else {
        (if f(actions[0]) { 1nat } else { 0nat }) + count_actions(actions.drop_first(), f)
    }
}

pub open spec fn is_send(a: StreamAction) -> bool {
    a is SendRequest
}

pub open spec fn is_refresh(a: StreamAction) -> bool {
    a is RefreshSession
}

pub open spec fn is_respond(a: StreamAction) -> bool {
    a is Respond
}

/// Requests that may still be sent from `phase` on.
pub open spec fn sends_left(phase: StreamPhase) -> nat {
    match phase {
        StreamPhase::Idle | StreamPhase::ProactiveRefresh => 2,
        StreamPhase::FirstAttempt | StreamPhase::ReactiveRefresh => 1,
        StreamPhase::Retry | StreamPhase::Done => 0,
    }
}

/// Session renewals that may still be asked for from `phase` on.
pub open spec fn refreshes_left(phase: StreamPhase) -> nat {
    match phase {
        StreamPhase::Idle => 2,
        StreamPhase::ProactiveRefresh | StreamPhase::FirstAttempt => 1,
        _ => 0,
    }
}

/// Replies that may still be given from `phase` on.
pub open spec fn replies_left(phase: StreamPhase) -> nat {
    match phase {
        StreamPhase::Done => 0,
        _ => 1,
    }
}

proof fn lemma_count_prepend(a: StreamAction, rest: Seq<StreamAction>, f: spec_fn(StreamAction) -> bool)
    ensures
        count_actions(seq![a] + rest, f) == (if f(a) { 1nat } else { 0nat }) + count_actions(rest, f),
{
    assert((seq![a] + rest).drop_first() =~= rest);
}

/// Over any sequence of reports, a request from `phase` issues no more sends,
/// renewals and replies than the phase has left.
pub proof fn lemma_run_within_budget(phase: StreamPhase, events: Seq<StreamEvent>)
    ensures
        count_actions(stream_run(phase, events).1, |a: StreamAction| is_send(a)) <= sends_left(phase),
        count_actions(stream_run(phase, events).1, |a: StreamAction| is_refresh(a)) <= refreshes_left(phase),
        count_actions(stream_run(phase, events).1, |a: StreamAction| is_respond(a)) <= replies_left(phase),
    decreases events.len(),
{
    if events.len() > 0 {
        let (next, action) = stream_next(phase, events[0]);
        let rest = stream_run(next, events.drop_first()).1;
        lemma_run_within_budget(next, events.drop_first());
        if action is Some {
            lemma_count_prepend(action->0, rest, |a: StreamAction| is_send(a));
            lemma_count_prepend(action->0, rest, |a: StreamAction| is_refresh(a));
            lemma_count_prepend(action->0, rest, |a: StreamAction| is_respond(a));
        }
    }
}

/// Retry is bounded: whatever the upstream answers, one stream request sends
/// at most two requests upstream, renews the session at most twice (once
/// because it was old, once after a 403) and replies at most once.
pub proof fn lemma_stream_retry_bounded(events: Seq<StreamEvent>)
    ensures
        count_actions(stream_run(StreamPhase::Idle, events).1, |a: StreamAction| is_send(a)) <= 2,
        count_actions(stream_run(StreamPhase::Idle, events).1, |a: StreamAction| is_refresh(a)) <= 2,
        count_actions(stream_run(StreamPhase::Idle, events).1, |a: StreamAction| is_respond(a)) <= 1,
{
    lemma_run_within_budget(StreamPhase::Idle, events);
}

/// A 403 on the first attempt asks for exactly one renewal and then exactly
/// one retry; a second 403 is answered to the caller, and nothing is sent
/// after that, whatever is reported.
pub proof fn lemma_forbidden_retried_once(status: u16, later: StreamEvent)
    ensures
        stream_next(StreamPhase::FirstAttempt, StreamEvent::UpstreamStatus { status: FORBIDDEN })
            == (StreamPhase::ReactiveRefresh, Some(StreamAction::RefreshSession)),
        stream_next(StreamPhase::ReactiveRefresh, StreamEvent::SessionRefreshed)
            == (StreamPhase::Retry, Some(StreamAction::SendRequest)),
        stream_next(StreamPhase::Retry, StreamEvent::UpstreamStatus { status: FORBIDDEN })
            == (StreamPhase::Done, Some(StreamAction::Respond { reply: StreamReply::UpstreamError { status: FORBIDDEN } })),
        stream_next(StreamPhase::Retry, StreamEvent::UpstreamStatus { status }).0 == StreamPhase::Done,
        stream_next(StreamPhase::Done, later) == (StreamPhase::Done, None::<StreamAction>),
{
}

/// At the start of a stream request, the session is renewed first if and only
/// if it is due; otherwise the request goes straight upstream.
pub proof fn lemma_proactive_refresh_iff_due(now: u64, fetched_at: u64)
    ensures
        stream_next(StreamPhase::Idle, StreamEvent::Begin { now, fetched_at }).1
            == (if refresh_due(fetched_at, now) { Some(StreamAction::RefreshSession) } else { Some(StreamAction::SendRequest) }),
{
}

} // verus!
