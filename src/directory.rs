use vstd::prelude::*;
use crate::status::{is_success, success_status};

verus! {

/// Public hostname of the camera-directory API.
pub const CAMERA_API_HOSTNAME: &'static str = "api.cctv.malangkota.go.id";

/// Address of the same API, used when the hostname does not answer.
pub const CAMERA_API_IP: &'static str = "36.94.95.188";

pub const CAMERAS_PATH: &'static str = "/records/cameras";

pub const HTTP_SCHEME: &'static str = "http://";

/// Content type of every directory response.
pub const JSON_CONTENT_TYPE: &'static str = "application/json";

/// Status of every directory response: the cascade never fails.
pub const DIRECTORY_STATUS: u16 = 200;

/// Timeout of one directory fetch, in seconds.
pub const DIRECTORY_TIMEOUT_SECS: u64 = 10;

/// Number of live sources tried before the snapshot is served.
pub const SOURCE_COUNT: usize = 2;

/// A live origin of the camera directory.
#[derive(Clone, Copy, Debug, PartialEq, Eq, Structural)]
pub enum DirectorySource {
    /// The public hostname.
    PrimaryHost,
    /// The fixed address, with a `Host` header naming the public hostname.
    FallbackIp,
}

/// The live sources, in the order they are tried.
pub open spec fn directory_source(i: nat) -> DirectorySource {
    if i == 0 {
        DirectorySource::PrimaryHost
    } else {
        DirectorySource::FallbackIp
    }
}

pub open spec fn source_host(source: DirectorySource) -> Seq<char> {
    match source {
        DirectorySource::PrimaryHost => CAMERA_API_HOSTNAME@,
        DirectorySource::FallbackIp => CAMERA_API_IP@,
    }
}

/// URL of the records endpoint at `source`.
pub fn source_url(source: DirectorySource) -> (r: String)
    ensures
        r@ == HTTP_SCHEME@ + source_host(source) + CAMERAS_PATH@,
{
    let url = String::from_str(HTTP_SCHEME);
    let host = match source {
        DirectorySource::PrimaryHost => CAMERA_API_HOSTNAME,
        DirectorySource::FallbackIp => CAMERA_API_IP,
    };
    url.concat(host).concat(CAMERAS_PATH)
}

/// `Host` header to send to `source`, if any: the address is reached under
/// the public hostname's name.
pub fn host_override(source: DirectorySource) -> (r: Option<&'static str>)
    ensures
        source == DirectorySource::PrimaryHost ==> r is None,
        source == DirectorySource::FallbackIp ==> r is Some && r->0@ == CAMERA_API_HOSTNAME@,
{
    match source {
        DirectorySource::PrimaryHost => None,
        DirectorySource::FallbackIp => Some(CAMERA_API_HOSTNAME),
    }
}

/// The text looks like an HTML page rather than JSON.
pub open spec fn looks_like_html(body: Seq<char>) -> bool {
    body.len() > 0 && body[0] == '<'
}

/// A directory answer is usable when its status is 2xx and its body is not an
/// HTML page served in place of JSON.
pub open spec fn directory_reply_ok(status: u16, body: Seq<char>) -> bool {
    success_status(status) && !looks_like_html(body)
}

/// Why a directory answer was not used.
#[derive(Clone, Copy, Debug, PartialEq, Eq, Structural)]
pub enum DirectoryRejection {
    /// The status was not 2xx.
    HttpStatus { status: u16 },
    /// The body starts with `<`.
    HtmlBody,
}

/// Whether the text starts with `<`.
pub fn starts_with_markup(body: &str) -> (r: bool)
    ensures
        r == looks_like_html(body@),
{
    body.unicode_len() > 0 && body.get_char(0) == '<'
}

/// Checks one directory answer, and hands its body back when it is usable.
pub fn check_directory_reply(status: u16, body: String) -> (r: Result<String, DirectoryRejection>)
    ensures
        !success_status(status) ==> r == Err::<String, DirectoryRejection>(DirectoryRejection::HttpStatus { status }),
        success_status(status) && looks_like_html(body@) ==> r == Err::<String, DirectoryRejection>(DirectoryRejection::HtmlBody),
        directory_reply_ok(status, body@) ==> r == Ok::<String, DirectoryRejection>(body),
{
    if !is_success(status) {
        Err(DirectoryRejection::HttpStatus { status })
    } else if starts_with_markup(body.as_str()) {
        Err(DirectoryRejection::HtmlBody)
    } else {
        Ok(body)
    }
}

/// How a fetch from one live source ended.
#[derive(Debug, PartialEq, Eq)]
pub enum FetchOutcome {
    /// No answer: the client could not be built, the source could not be
    /// reached, timed out, or the body could not be read.
    Unreachable,
    /// The source answered.
    Answered { status: u16, body: String },
}

/// The camera list that is served.
#[derive(Debug, PartialEq, Eq)]
pub enum DirectoryBody {
    /// The text of a live source, verbatim.
    Live(String),
    /// The embedded last-known-good snapshot.
    Snapshot,
}

/// What the host is to do next for a directory request.
#[derive(Debug, PartialEq, Eq)]
pub enum DirectoryAction {
    /// Fetch the camera list from `source`.
    Fetch { source: DirectorySource },
    /// Answer with `body`, status 200 and a JSON content type.
    Serve { body: DirectoryBody },
}

/// The fetch ended with an answer whose body can be served.
pub open spec fn outcome_usable(outcome: FetchOutcome) -> bool {
    outcome matches FetchOutcome::Answered { status, body } && directory_reply_ok(status, body@)
}

/// One transition of the cascade, from `attempted` (the index of the source
/// being fetched) and `finished`: the next index and flag, and the action.
pub open spec fn directory_next(attempted: nat, finished: bool, outcome: FetchOutcome) -> (nat, bool, Option<DirectoryAction>) {
    if finished {
        (attempted, finished, None)
    } else if outcome_usable(outcome) {
        (attempted, true, Some(DirectoryAction::Serve { body: DirectoryBody::Live(outcome->body) }))
    } else if attempted + 1 < SOURCE_COUNT {
        (attempted + 1, false, Some(DirectoryAction::Fetch { source: directory_source(attempted + 1) }))
    } else {
        (attempted, true, Some(DirectoryAction::Serve { body: DirectoryBody::Snapshot }))
    }
}

/// The course of one directory request: live sources in order, first usable
/// answer wins, the snapshot when none is.
pub struct DirectoryCascade {
    attempted: usize,
    finished: bool,
}

impl DirectoryCascade {
    pub closed spec fn spec_attempted(&self) -> nat {
        self.attempted as nat
    }

    pub closed spec fn spec_finished(&self) -> bool {
        self.finished
    }

    pub open spec fn wf(&self) -> bool {
        self.spec_attempted() < SOURCE_COUNT
    }

    /// A cascade whose first step is to fetch from the public hostname.
    pub fn new() -> (r: Self)
        ensures
            r.wf(),
            r.spec_attempted() == 0,
            !r.spec_finished(),
            directory_source(r.spec_attempted()) == DirectorySource::PrimaryHost,
    {
        DirectoryCascade { attempted: 0, finished: false }
    }

    /// The source to fetch from now, or `None` once the answer is decided.
    pub fn current_source(&self) -> (r: Option<DirectorySource>)
        requires
            self.wf(),
        ensures
            self.spec_finished() ==> r is None,
            !self.spec_finished() ==> r == Some(directory_source(self.spec_attempted())),
    {
        if self.finished {
            None
        } else if self.attempted == 0 {
            Some(DirectorySource::PrimaryHost)
        } else {
            Some(DirectorySource::FallbackIp)
        }
    }

    /// Takes in how the fetch from the current source ended and says what to
    /// do next.
    pub fn on_outcome(&mut self, outcome: FetchOutcome) -> (r: Option<DirectoryAction>)
        requires
            old(self).wf(),
        ensures
            final(self).wf(),
            (final(self).spec_attempted(), final(self).spec_finished(), r)
                == directory_next(old(self).spec_attempted(), old(self).spec_finished(), outcome),
    {
        if self.finished {
            return None;
        }
        match outcome {
            FetchOutcome::Answered { status, body } => {
                if is_success(status) && !starts_with_markup(body.as_str()) {
                    self.finished = true;
                    return Some(DirectoryAction::Serve { body: DirectoryBody::Live(body) });
                }
            },
            FetchOutcome::Unreachable => {},
        }
        if self.attempted + 1 < SOURCE_COUNT {
            self.attempted = self.attempted + 1;
            Some(DirectoryAction::Fetch { source: DirectorySource::FallbackIp })
        } else {
            self.finished = true;
            Some(DirectoryAction::Serve { body: DirectoryBody::Snapshot })
        }
    }
}

/// The actions of a cascade from (`attempted`, `finished`) on, given the
/// outcomes of its fetches in order.
pub open spec fn directory_run(attempted: nat, finished: bool, outcomes: Seq<FetchOutcome>) -> Seq<DirectoryAction>
    decreases outcomes.len(),
{
    if outcomes.len() == 0 {
        Seq::empty()
    } else {
        let (a, f, action) = directory_next(attempted, finished, outcomes[0]);
        let rest = directory_run(a, f, outcomes.drop_first());
        match action {
            Some(x) => seq![x] + rest,
            None => rest,
        }
    }
}

/// Once the answer is decided, no outcome changes anything.
pub proof fn lemma_finished_cascade_is_silent(attempted: nat, outcomes: Seq<FetchOutcome>)
    ensures
        directory_run(attempted, true, outcomes) == Seq::<DirectoryAction>::empty(),
    decreases outcomes.len(),
{
    if outcomes.len() > 0 {
        lemma_finished_cascade_is_silent(attempted, outcomes.drop_first());
    }
}

/// When the public hostname fails and the address answers usably, the body
/// served is the address's body, verbatim, and the cascade stops there.
pub proof fn lemma_fallback_success_served(primary: FetchOutcome, status: u16, body: String, later: Seq<FetchOutcome>)
    requires
        !outcome_usable(primary),
        directory_reply_ok(status, body@),
    ensures
        directory_run(0, false, seq![primary, FetchOutcome::Answered { status, body }] + later)
            == seq![
                DirectoryAction::Fetch { source: DirectorySource::FallbackIp },
                DirectoryAction::Serve { body: DirectoryBody::Live(body) },
            ],
{
    let all = seq![primary, FetchOutcome::Answered { status, body }] + later;
    let tail = all.drop_first();
    assert(tail[0] == FetchOutcome::Answered { status, body });
    lemma_finished_cascade_is_silent(1, tail.drop_first());
    assert(directory_run(1, false, tail) =~= seq![DirectoryAction::Serve { body: DirectoryBody::Live(body) }]);
}

/// When both live sources fail, the snapshot is served.
pub proof fn lemma_both_failed_serves_snapshot(primary: FetchOutcome, fallback: FetchOutcome)
    requires
        !outcome_usable(primary),
        !outcome_usable(fallback),
    ensures
        directory_run(0, false, seq![primary, fallback])
            == seq![
                DirectoryAction::Fetch { source: DirectorySource::FallbackIp },
                DirectoryAction::Serve { body: DirectoryBody::Snapshot },
            ],
{
    let all = seq![primary, fallback];
    assert(all.drop_first().drop_first() =~= Seq::<FetchOutcome>::empty());
    assert(all.drop_first() =~= seq![fallback]);
    assert(seq![fallback].drop_first() =~= Seq::<FetchOutcome>::empty());
    assert(directory_run(1, true, Seq::<FetchOutcome>::empty()) == Seq::<DirectoryAction>::empty());
    assert(directory_run(1, false, all.drop_first()) =~= seq![DirectoryAction::Serve { body: DirectoryBody::Snapshot }]);
}

/// An answer whose body starts with `<` is a failure even with status 200:
/// the cascade moves on instead of serving it.
pub proof fn lemma_html_body_rejected(attempted: nat, status: u16, body: String)
    requires
        body@.len() > 0,
        body@[0] == '<',
    ensures
        !directory_reply_ok(status, body@),
        directory_next(attempted, false, FetchOutcome::Answered { status, body }).2
            != Some(DirectoryAction::Serve { body: DirectoryBody::Live(body) }),
{
}

/// The payload depends on the upstream outcomes alone: two directory requests
/// that meet the same outcomes serve the same body.
pub proof fn lemma_directory_idempotent(first: Seq<FetchOutcome>, second: Seq<FetchOutcome>)
    requires
        first == second,
    ensures
        directory_run(0, false, first) == directory_run(0, false, second),
{
}

} // verus!
