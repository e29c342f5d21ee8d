use vstd::prelude::*;

verus! {

/// Age, in milliseconds, past which a session is renewed before a stream
/// request: two hours, against cookies that live about three.
pub const COOKIE_TTL_MS: u64 = 7_200_000;

/// Timeout of every request made with a session client, in seconds.
pub const SESSION_TIMEOUT_SECS: u64 = 30;

/// A session is due for renewal when strictly more than the TTL has passed
/// since it was fetched. A clock reading before `fetched_at` counts as no time
/// elapsed.
pub open spec fn refresh_due(fetched_at: u64, now: u64) -> bool {
    now > fetched_at && now - fetched_at > COOKIE_TTL_MS
}

/// Whether a session fetched at `fetched_at` must be renewed at `now`
/// (both in milliseconds of one monotonic clock).
pub fn needs_refresh(fetched_at: u64, now: u64) -> (r: bool)
    ensures
        r == refresh_due(fetched_at, now),
{
    now > fetched_at && now - fetched_at > COOKIE_TTL_MS
}

/// The current upstream session: a client handle that carries the session
/// cookies, and the time at which those cookies were fetched.
///
/// The two always come from one and the same refresh: the pair is only ever
/// replaced whole.
pub struct SessionState<C> {
    client: C,
    fetched_at: u64,
}

impl<C> SessionState<C> {
    pub closed spec fn spec_client(&self) -> C {
        self.client
    }

    pub closed spec fn spec_fetched_at(&self) -> u64 {
        self.fetched_at
    }

    /// Session built at start-up from a freshly warmed-up client.
    pub fn new(client: C, now: u64) -> (r: Self)
        ensures
            r.spec_client() == client,
            r.spec_fetched_at() == now,
    {
        SessionState { client, fetched_at: now }
    }

    /// The client handle of the current session.
    pub fn client(&self) -> (r: &C)
        ensures
            *r == self.spec_client(),
    {
        &self.client
    }

    /// When the current session's cookies were fetched.
    pub fn fetched_at(&self) -> (r: u64)
        ensures
            r == self.spec_fetched_at(),
    {
        self.fetched_at
    }

    /// Whether the session must be renewed before a request made at `now`.
    pub fn is_stale(&self, now: u64) -> (r: bool)
        ensures
            r == refresh_due(self.spec_fetched_at(), now),
    {
        needs_refresh(self.fetched_at, now)
    }

    /// Installs the client of a refresh completed at `now`: client and
    /// timestamp are replaced together, nothing of the previous session stays.
    pub fn replace(&mut self, client: C, now: u64)
        ensures
            final(self).spec_client() == client,
            final(self).spec_fetched_at() == now,
    {
        *self = SessionState { client, fetched_at: now };
    }
}

/// Proactive renewal fires exactly when more than two hours have passed
/// since the cookies were fetched: not at 7199 s, but at 7201 s.
pub proof fn lemma_proactive_refresh_threshold(fetched_at: u64, now: u64)
    requires
        now >= fetched_at,
    ensures
        refresh_due(fetched_at, now) <==> now - fetched_at > 7200 * 1000,
        now - fetched_at <= 7199 * 1000 ==> !refresh_due(fetched_at, now),
        now - fetched_at >= 7201 * 1000 ==> refresh_due(fetched_at, now),
{
}

} // verus!
