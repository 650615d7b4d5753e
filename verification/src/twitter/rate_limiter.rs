//! Rate limiter for Twitter API calls.
//!
//! A token bucket: each window of `window_seconds` grants `max_requests`
//! tokens, a request takes one, and consecutive requests are spaced at least
//! `min_delay_ms` apart. Time is given by the caller in milliseconds of a
//! monotonic clock; the limiter answers with how long to wait before going on.
use crate::twitter::error::{TwitterError, TwitterErrorView};
use vstd::prelude::*;

verus! {

/// Rate limits for different Twitter operations.
#[derive(Debug, Clone, Copy, PartialEq, Eq)]
pub struct RateLimitConfig {
    /// Maximum requests per window
    pub max_requests: u32,
    /// Window duration in seconds
    pub window_seconds: u64,
    /// Minimum delay between requests in milliseconds
    pub min_delay_ms: u64,
}

impl Default for RateLimitConfig {
    fn default() -> (r: Self)
        ensures
            r == (RateLimitConfig { max_requests: 50, window_seconds: 900, min_delay_ms: 1000 }),
    {
        RateLimitConfig { max_requests: 50, window_seconds: 900, min_delay_ms: 1000 }
    }
}

impl RateLimitConfig {
    /// Configuration for posting tweets (more restrictive).
    pub fn for_post() -> (r: Self)
        ensures
            r == (RateLimitConfig { max_requests: 25, window_seconds: 900, min_delay_ms: 2000 }),
    {
        RateLimitConfig { max_requests: 25, window_seconds: 900, min_delay_ms: 2000 }
    }

    /// Configuration for reading operations (less restrictive).
    pub fn for_read() -> (r: Self)
        ensures
            r == (RateLimitConfig { max_requests: 100, window_seconds: 900, min_delay_ms: 500 }),
    {
        RateLimitConfig { max_requests: 100, window_seconds: 900, min_delay_ms: 500 }
    }

    /// Configuration for search operations.
    pub fn for_search() -> (r: Self)
        ensures
            r == (RateLimitConfig { max_requests: 50, window_seconds: 900, min_delay_ms: 1000 }),
    {
        RateLimitConfig { max_requests: 50, window_seconds: 900, min_delay_ms: 1000 }
    }
}

/// The state of a rate limiter.
pub struct LimiterState {
    pub config: RateLimitConfig,
    pub tokens: nat,
    pub last_request_ms: nat,
    pub window_start_ms: nat,
}

/// `a - b`, or zero when `b` is larger.
pub open spec fn sat_sub(a: nat, b: nat) -> nat {
    if a >= b {
        (a - b) as nat
    } else {
        0
    }
}

/// `a + b`, capped at `u64::MAX`.
pub open spec fn sat_add(a: nat, b: nat) -> nat {
    if a + b <= u64::MAX {
        a + b
    } else {
        u64::MAX as nat
    }
}

/// Whether the window that began at `s.window_start_ms` is over at `now`.
pub open spec fn window_over(s: LimiterState, now: nat) -> bool {
    sat_sub(now, s.window_start_ms) / 1000 >= s.config.window_seconds
}

/// The state after the window check at `now`: a finished window restarts
/// at `now` with a full bucket.
pub open spec fn refilled(s: LimiterState, now: nat) -> LimiterState {
    if window_over(s, now) {
        LimiterState { tokens: s.config.max_requests as nat, window_start_ms: now, ..s }
    } else {
        s
    }
}

/// How long a request at `now` must wait to keep `min_delay_ms` after the last one.
pub open spec fn pacing_delay(s: LimiterState, now: nat) -> nat {
    let since = sat_sub(now, s.last_request_ms);
    if since < s.config.min_delay_ms {
        (s.config.min_delay_ms - since) as nat
    } else {
        0
    }
}

/// The outcome of a request at `now`: the new state, and either the delay in
/// milliseconds to wait before proceeding or the rate-limit error.
pub open spec fn acquire_outcome(s: LimiterState, now: nat) -> (LimiterState, Result<
    nat,
    TwitterErrorView,
>) {
    let r = refilled(s, now);
    if r.tokens == 0 {
        (
            r,
            Err(
                TwitterErrorView::RateLimited {
                    wait_seconds: sat_sub(
                        r.config.window_seconds as nat,
                        sat_sub(now, r.window_start_ms) / 1000,
                    ),
                },
            ),
        )
    } else {
        let delay = pacing_delay(r, now);
        (
            LimiterState {
                tokens: (r.tokens - 1) as nat,
                last_request_ms: sat_add(now, delay),
                ..r
            },
            Ok(delay),
        )
    }
}

/// Rate limiter using a token bucket.
pub struct RateLimiter {
    config: RateLimitConfig,
    tokens: u64,
    last_request_ms: u64,
    window_start_ms: u64,
}

impl View for RateLimiter {
    type V = LimiterState;

    closed spec fn view(&self) -> LimiterState {
        LimiterState {
            config: self.config,
            tokens: self.tokens as nat,
            last_request_ms: self.last_request_ms as nat,
            window_start_ms: self.window_start_ms as nat,
        }
    }
}

impl RateLimiter {
    #[verifier::type_invariant]
    spec fn bucket_within_limit(self) -> bool {
        self.tokens <= self.config.max_requests
    }

    /// Create a new rate limiter with the given configuration, at time `now_ms`:
    /// the bucket is full and the window and the pacing start now.
    pub fn new(config: RateLimitConfig, now_ms: u64) -> (r: Self)
        ensures
            r@ == (LimiterState {
                config,
                tokens: config.max_requests as nat,
                last_request_ms: now_ms as nat,
                window_start_ms: now_ms as nat,
            }),
    {
        RateLimiter {
            config,
            tokens: config.max_requests as u64,
            last_request_ms: now_ms,
            window_start_ms: now_ms,
        }
    }

    /// Create a rate limiter with the default configuration.
    pub fn default_limiter(now_ms: u64) -> (r: Self)
        ensures
            r@ == (LimiterState {
                config: RateLimitConfig { max_requests: 50, window_seconds: 900, min_delay_ms: 1000 },
                tokens: 50,
                last_request_ms: now_ms as nat,
                window_start_ms: now_ms as nat,
            }),
    {
        Self::new(RateLimitConfig::default(), now_ms)
    }

    /// Acquire permission to make a request at time `now_ms`.
    ///
    /// Refills the bucket if the window is over, then takes a token. Returns
    /// how many milliseconds the caller must wait before making the request,
    /// or `RateLimited` with the seconds left in the window when no token is left.
    pub fn acquire(&mut self, now_ms: u64) -> (r: Result<u64, TwitterError>)
        ensures
            now_ms >= old(self)@.window_start_ms && (now_ms - old(self)@.window_start_ms) / 1000
                >= old(self)@.config.window_seconds ==> final(self)@.window_start_ms == now_ms,
            final(self)@ == acquire_outcome(old(self)@, now_ms as nat).0,
            match r {
                Ok(d) => acquire_outcome(old(self)@, now_ms as nat).1 == Ok::<
                    nat,
                    TwitterErrorView,
                >(d as nat),
                Err(e) => acquire_outcome(old(self)@, now_ms as nat).1 == Err::<
                    nat,
                    TwitterErrorView,
                >(e@),
            },
    {
        proof {
            use_type_invariant(&*self);
        }
        let since_window = now_ms.saturating_sub(self.window_start_ms);
        if since_window / 1000 >= self.config.window_seconds {
            self.tokens = self.config.max_requests as u64;
            self.window_start_ms = now_ms;
        }
        if self.tokens == 0 {
            let elapsed = now_ms.saturating_sub(self.window_start_ms) / 1000;
            let wait_seconds = self.config.window_seconds.saturating_sub(elapsed);
            return Err(TwitterError::RateLimited { wait_seconds });
        }
        self.tokens = self.tokens - 1;
        let since_last = now_ms.saturating_sub(self.last_request_ms);
        let delay = if since_last < self.config.min_delay_ms {
            self.config.min_delay_ms - since_last
        } else {
            0
        };
        self.last_request_ms = now_ms.saturating_add(delay);
        Ok(delay)
    }

    /// Get the number of remaining tokens.
    pub fn remaining_tokens(&self) -> (r: u64)
        ensures
            r == self@.tokens,
            r <= self@.config.max_requests,
    {
        proof {
            use_type_invariant(self);
        }
        self.tokens
    }

    /// Check if a request can be made without waiting for a new window.
    pub fn can_proceed(&self) -> (r: bool)
        ensures
            r == (self@.tokens > 0),
    {
        self.tokens > 0
    }

    /// Get the current rate limit configuration.
    pub fn config(&self) -> (r: &RateLimitConfig)
        ensures
            *r == self@.config,
    {
        &self.config
    }
}

// ----- laws -----

/// Runs a sequence of requests at the given times, and counts those granted.
pub open spec fn run(s: LimiterState, times: Seq<nat>) -> (LimiterState, nat)
    decreases times.len(),
{
    if times.len() == 0 {
        (s, 0)
    } else {
        let (s1, r) = acquire_outcome(s, times[0]);
        let (s2, n) = run(s1, times.drop_first());
        (s2, if r is Ok {
            n + 1
        } else {
            n
        })
    }
}

/// Within one window no more requests are granted than the tokens left at its
/// start: if no request of a run comes after the window is over, the run gets
/// at most `s.tokens` grants, and the window does not move.
pub proof fn law_window_budget(s: LimiterState, times: Seq<nat>)
    requires
        forall|i: int| 0 <= i < times.len() ==> !#[trigger] window_over(s, times[i]),
    ensures
        run(s, times).1 <= s.tokens,
        run(s, times).0.window_start_ms == s.window_start_ms,
        run(s, times).0.config == s.config,
    decreases times.len(),
{
    if times.len() > 0 {
        assert(!window_over(s, times[0]));
        let s1 = acquire_outcome(s, times[0]).0;
        assert forall|i: int| 0 <= i < times.drop_first().len() implies !#[trigger] window_over(
            s1,
            times.drop_first()[i],
        ) by {
            assert(times.drop_first()[i] == times[i + 1]);
            assert(!window_over(s, times[i + 1]));
        }
        law_window_budget(s1, times.drop_first());
    }
}

/// A granted request is spaced at least `min_delay_ms` after the one before
/// (when the clock does not go backwards and the sum fits in a `u64`), and
/// never before `now`.
pub proof fn law_min_spacing(s: LimiterState, now: nat)
    requires
        s.last_request_ms <= now <= u64::MAX,
        s.last_request_ms + s.config.min_delay_ms <= u64::MAX,
        acquire_outcome(s, now).1 is Ok,
    ensures
        acquire_outcome(s, now).0.last_request_ms >= s.last_request_ms + s.config.min_delay_ms,
        acquire_outcome(s, now).0.last_request_ms >= now,
{
}

/// A refused request takes no token and leaves the spacing as it was; asking
/// again at the same moment is refused again, with the same wait.
pub proof fn law_refusal_is_stable(s: LimiterState, now: nat)
    requires
        acquire_outcome(s, now).1 is Err,
    ensures
        acquire_outcome(s, now).0.tokens == 0,
        acquire_outcome(s, now).0.last_request_ms == s.last_request_ms,
        acquire_outcome(acquire_outcome(s, now).0, now) == acquire_outcome(s, now),
{
}

/// A granted request takes exactly one token from the bucket as it stands after
/// the window check.
pub proof fn law_grant_takes_one_token(s: LimiterState, now: nat)
    requires
        acquire_outcome(s, now).1 is Ok,
    ensures
        acquire_outcome(s, now).0.tokens + 1 == refilled(s, now).tokens,
{
}

/// Running one more request after a run continues from the state the run
/// left, and counts one more grant when that request is granted.
proof fn lemma_run_push(s: LimiterState, times: Seq<nat>, t: nat)
    ensures
        run(s, times.push(t)).0 == acquire_outcome(run(s, times).0, t).0,
        run(s, times.push(t)).1 == run(s, times).1 + (if acquire_outcome(run(s, times).0, t).1 is Ok {
            1nat
        } else {
            0nat
        }),
    decreases times.len(),
{
    let p = times.push(t);
    if times.len() == 0 {
        assert(p.drop_first() =~= Seq::<nat>::empty());
        assert(p[0] == t);
        let s1 = acquire_outcome(s, t).0;
        assert(run(s1, p.drop_first()) == (s1, 0nat));
        assert(run(s, times) == (s, 0nat));
    } else {
        assert(p.drop_first() =~= times.drop_first().push(t));
        assert(p[0] == times[0]);
        let s1 = acquire_outcome(s, times[0]).0;
        lemma_run_push(s1, times.drop_first(), t);
        assert(run(s, times).0 == run(s1, times.drop_first()).0);
        assert(run(s, p).0 == run(s1, p.drop_first()).0);
    }
}

/// Within one window, the first `s.tokens` requests of a run are granted and
/// every later one is refused; before request `k` the bucket holds
/// `s.tokens - k` tokens (none once they are spent), the run has granted
/// `min(k, s.tokens)` requests, and a refusal asks to wait no longer than
/// the window. A new limiter starts with `max_requests` tokens, so exactly
/// its first `max_requests` requests in a window are granted. A granted
/// request that comes no earlier than the previous slot is spaced at least
/// `min_delay_ms` after it.
pub proof fn law_first_requests_granted(s: LimiterState, times: Seq<nat>, k: int)
    requires
        0 <= k < times.len(),
        forall|i: int| 0 <= i < times.len() ==> !#[trigger] window_over(s, times[i]),
    ensures
        ({
            let before = run(s, times.take(k)).0;
            let answer = acquire_outcome(before, times[k]);
            &&& before.config == s.config
            &&& before.window_start_ms == s.window_start_ms
            &&& before.tokens == sat_sub(s.tokens, k as nat)
            &&& run(s, times.take(k)).1 == (if k <= s.tokens {
                k as nat
            } else {
                s.tokens
            })
            &&& (answer.1 is Ok <==> k < s.tokens)
            &&& (answer.1 matches Err(TwitterErrorView::RateLimited { wait_seconds }) ==> wait_seconds
                <= s.config.window_seconds)
            &&& (answer.1 is Err ==> answer.1 matches Err(TwitterErrorView::RateLimited { .. }))
            &&& (answer.1 is Ok && before.last_request_ms <= times[k] && before.last_request_ms
                + s.config.min_delay_ms <= u64::MAX ==> answer.0.last_request_ms
                >= before.last_request_ms + s.config.min_delay_ms)
        }),
    decreases k,
{
    if k == 0 {
        assert(times.take(0) =~= Seq::<nat>::empty());
        assert(run(s, times.take(0)) == (s, 0nat));
    } else {
        law_first_requests_granted(s, times, k - 1);
        assert(times.take(k) =~= times.take(k - 1).push(times[k - 1]));
        lemma_run_push(s, times.take(k - 1), times[k - 1]);
        let prev = run(s, times.take(k - 1)).0;
        assert(!window_over(s, times[k - 1]));
        assert(refilled(prev, times[k - 1]) == prev);
    }
    let before = run(s, times.take(k)).0;
    assert(!window_over(s, times[k]));
    assert(before.config == s.config);
    assert(before.window_start_ms == s.window_start_ms);
    assert(before.tokens == sat_sub(s.tokens, k as nat));
    assert(run(s, times.take(k)).1 == (if k <= s.tokens { k as nat } else { s.tokens }));
    assert(refilled(before, times[k]) == before);
    let answer = acquire_outcome(before, times[k]);
    assert(answer.1 is Ok <==> k < s.tokens);
}

/// A request that finds its window over opens a new window at its own time,
/// with a full bucket less the token it takes when granted.
pub proof fn law_refill_opens_window(s: LimiterState, now: nat)
    requires
        now >= s.window_start_ms,
        (now - s.window_start_ms) / 1000 >= s.config.window_seconds,
    ensures
        acquire_outcome(s, now).0.window_start_ms == now,
        acquire_outcome(s, now).1 is Ok <==> s.config.max_requests > 0,
        acquire_outcome(s, now).1 is Ok ==> acquire_outcome(s, now).0.tokens + 1
            == s.config.max_requests,
{
}

/// After a request opens a new window, no more than `max_requests` requests
/// are granted within `window_seconds` of it: a run whose first request finds
/// the window over and whose later requests all come less than
/// `window_seconds` after it gets at most `max_requests` grants.
pub proof fn law_window_limit_after_refill(s: LimiterState, times: Seq<nat>)
    requires
        times.len() > 0,
        times[0] >= s.window_start_ms,
        (times[0] - s.window_start_ms) / 1000 >= s.config.window_seconds,
        forall|i: int|
            0 <= i < times.len() ==> times[0] <= #[trigger] times[i] < times[0]
                + s.config.window_seconds * 1000,
    ensures
        run(s, times).1 <= s.config.max_requests,
{
    let (s1, r) = acquire_outcome(s, times[0]);
    let rest = times.drop_first();
    assert(s1.window_start_ms == times[0]);
    assert forall|i: int| 0 <= i < rest.len() implies !#[trigger] window_over(s1, rest[i]) by {
        assert(rest[i] == times[i + 1]);
        assert(times[0] <= times[i + 1] < times[0] + s.config.window_seconds * 1000);
        assert(sat_sub(rest[i], s1.window_start_ms) == rest[i] - times[0]);
        assert((rest[i] - times[0]) / 1000 < s.config.window_seconds as int) by (nonlinear_arith)
            requires
                0 <= rest[i] - times[0] < s.config.window_seconds * 1000,
        ;
    }
    law_window_budget(s1, rest);
}

} // verus!
