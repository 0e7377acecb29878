//! The per-client request budget: at most 100 requests in a 60-second window,
//! the window restarting once it has fully elapsed.
use vstd::prelude::*;
use crate::string_map::TextMap;
use crate::text::string_of;

verus! {

/// The length of a window, in nanoseconds (60 seconds).
pub const WINDOW_NANOS: u64 = 60_000_000_000u64;

/// The number of requests a client may make in one window.
pub const MAX_REQUESTS: u32 = 100u32;

/// The time from `start` to `now`, zero when `now` is earlier (as
/// `Instant::duration_since` saturates).
pub open spec fn elapsed(now: int, start: int) -> int {
    if now >= start {
        now - start
    } else {
        0
    }
}

/// One request of a client at time `now`: from the client's (count, window
/// start), if any, to the new (count, window start) and whether the request
/// is let through.
pub open spec fn rate_step(prev: Option<(u32, u64)>, now: u64) -> ((u32, u64), bool) {
    let e = match prev {
        Some(e) => e,
        None => (0u32, now),
    };
    let e2 = if elapsed(now as int, e.1 as int) > WINDOW_NANOS as int {
        (0u32, now)
    } else {
        e
    };
    if e2.0 >= MAX_REQUESTS {
        (e2, false)
    } else {
        (((e2.0 + 1) as u32, e2.1), true)
    }
}

/// The counters of all clients, by client key.
pub struct RateLimiterState {
    requests: TextMap<(u32, u64)>,
}

impl RateLimiterState {
    /// The (count, window start in nanoseconds) of each client seen.
    pub closed spec fn view(&self) -> Map<Seq<char>, (u32, u64)> {
        self.requests.view()
    }

    /// The internal invariant: every count stays within the budget.
    #[verifier::type_invariant]
    spec fn within_budget(self) -> bool {
        forall|k: Seq<char>| #[trigger]
            self.requests.view().dom().contains(k) ==> self.requests.view()[k].0 <= MAX_REQUESTS
    }

    /// A limiter that has seen no client.
    pub fn new() -> (s: Self)
        ensures
            s.view() == Map::<Seq<char>, (u32, u64)>::empty(),
    {
        RateLimiterState { requests: TextMap::new() }
    }

    /// The decision for one request of `client` at time `now` (nanoseconds on
    /// a monotonic clock): whether it is let through, recording it if so.
    pub fn check(&mut self, client: &str, now: u64) -> (allowed: bool)
        ensures
            ({
                let prev = if old(self).view().dom().contains(client@) {
                    Some(old(self).view()[client@])
                } else {
                    None
                };
                let (e, ok) = rate_step(prev, now);
                &&& allowed == ok
                &&& final(self).view() == old(self).view().insert(client@, e)
            }),
    {
        proof {
            use_type_invariant(&*self);
        }
        let (count, start) = match self.requests.get(client) {
            Some(e) => *e,
            None => (0u32, now),
        };
        let since = if now >= start {
            now - start
        } else {
            0
        };
        let (count, start) = if since > WINDOW_NANOS {
            (0u32, now)
        } else {
            (count, start)
        };
        let allowed = count < MAX_REQUESTS;
        let entry = if allowed {
            (count + 1, start)
        } else {
            (count, start)
        };
        let mut requests: TextMap<(u32, u64)> = TextMap::new();
        std::mem::swap(&mut requests, &mut self.requests);
        requests.insert(string_of(client), entry);
        self.requests = requests;
        allowed
    }
}

impl Default for RateLimiterState {
    fn default() -> (s: Self)
        ensures
            s.view() == Map::<Seq<char>, (u32, u64)>::empty(),
    {
        Self::new()
    }
}

} // verus!

verus! {

/// A client's (count, window start) after requests at the times `ts`,
/// starting from `prev`.
pub open spec fn state_after(prev: Option<(u32, u64)>, ts: Seq<u64>) -> Option<(u32, u64)>
    decreases ts.len(),
{
    if ts.len() == 0 {
        prev
    } else {
        Some(rate_step(state_after(prev, ts.drop_last()), ts.last()).0)
    }
}

/// The answers to a client's requests at the times `ts`, starting from `prev`.
pub open spec fn answers(prev: Option<(u32, u64)>, ts: Seq<u64>) -> Seq<bool>
    decreases ts.len(),
{
    if ts.len() == 0 {
        Seq::empty()
    } else {
        answers(prev, ts.drop_last()).push(rate_step(state_after(prev, ts.drop_last()), ts.last()).1)
    }
}

/// A client that has not been seen, making requests at times that all lie
/// within one window from the first, has exactly its first 100 requests let
/// through and every later one refused.
pub proof fn law_budget_within_window(ts: Seq<u64>)
    requires
        ts.len() > 0,
        forall|i: int|
            0 <= i < ts.len() ==> ts[0] <= #[trigger] ts[i] && ts[i] - ts[0] <= 60_000_000_000,
    ensures
        answers(None, ts).len() == ts.len(),
        forall|i: int| 0 <= i < ts.len() ==> #[trigger] answers(None, ts)[i] == (i < 100),
    decreases ts.len(),
{
    lemma_run_in_window(ts, ts[0]);
}

proof fn lemma_run_in_window(ts: Seq<u64>, t0: u64)
    requires
        ts.len() > 0,
        ts[0] == t0,
        forall|i: int| 0 <= i < ts.len() ==> t0 <= #[trigger] ts[i] && ts[i] - t0 <= WINDOW_NANOS,
    ensures
        state_after(None, ts) == Some(
            (
                (if ts.len() < MAX_REQUESTS {
                    ts.len()
                } else {
                    MAX_REQUESTS as nat
                }) as u32,
                t0,
            ),
        ),
        answers(None, ts).len() == ts.len(),
        forall|i: int| 0 <= i < ts.len() ==> #[trigger] answers(None, ts)[i] == (i < MAX_REQUESTS),
    decreases ts.len(),
{
    let p = ts.drop_last();
    if ts.len() == 1 {
        assert(p.len() == 0);
        assert(state_after(None, p) == None::<(u32, u64)>);
        assert(answers(None, p) =~= Seq::<bool>::empty());
    } else {
        assert forall|i: int| 0 <= i < p.len() implies t0 <= #[trigger] p[i] && p[i] - t0
            <= WINDOW_NANOS by {
            assert(p[i] == ts[i]);
        }
        lemma_run_in_window(p, t0);
        let last = ts.last();
        assert(t0 <= last && last - t0 <= WINDOW_NANOS) by {
            assert(ts[ts.len() - 1] == last);
        }
        assert forall|i: int| 0 <= i < ts.len() implies #[trigger] answers(None, ts)[i] == (i
            < MAX_REQUESTS) by {
            if i < p.len() {
                assert(answers(None, ts)[i] == answers(None, p)[i]);
            }
        }
    }
}

/// Once a client's window has fully elapsed, its next request is let through
/// and opens a new window holding that one request.
pub proof fn law_window_restarts(prev: (u32, u64), now: u64)
    requires
        elapsed(now as int, prev.1 as int) > 60_000_000_000,
    ensures
        rate_step(Some(prev), now) == ((1u32, now), true),
{
}

/// A refused request leaves the client's counter as it was.
pub proof fn law_refusal_changes_nothing(prev: Option<(u32, u64)>, now: u64)
    requires
        prev is Some,
        !rate_step(prev, now).1,
    ensures
        Some(rate_step(prev, now).0) == prev,
{
}

/// The first request of a client never seen is let through and counted once.
pub proof fn law_first_request_allowed(now: u64)
    ensures
        rate_step(None, now) == ((1u32, now), true),
{
}

} // verus!
