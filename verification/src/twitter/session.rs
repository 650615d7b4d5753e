//! Session validation and the common admission of every Twitter tool's request:
//! input validation, then the rate limiter, then the session check.
use crate::twitter::error::{outcome, TwitterError, TwitterErrorView};
use crate::twitter::rate_limiter::{acquire_outcome, LimiterState, RateLimiter};
use crate::twitter::types::TwitterSession;
use vstd::prelude::*;

verus! {

/// A session is unusable when its cookies or its CSRF token are empty.
pub open spec fn session_missing(session: TwitterSession) -> bool {
    session.cookies@.len() == 0 || session.csrf_token@.len() == 0
}

/// Validate the Twitter session.
pub fn validate_session(session: &TwitterSession) -> (r: Result<(), TwitterError>)
    ensures
        outcome(r) == (if session_missing(*session) {
            Err(TwitterErrorView::NoSession)
        } else {
            Ok::<(), TwitterErrorView>(())
        }),
{
    if session.cookies.as_str().is_empty() || session.csrf_token.as_str().is_empty() {
        return Err(TwitterError::NoSession);
    }
    Ok(())
}

/// The outcome of admitting a request: the limiter's new state, the decision, and the
/// milliseconds to wait before answering.
///
/// An invalid input is refused before the limiter is asked (it keeps its
/// state); a rate-limited request is refused; a granted request takes a token
/// and its pacing delay even when the session then turns out to be missing.
pub open spec fn admission_outcome(
    input: Result<(), TwitterErrorView>,
    s: LimiterState,
    now: nat,
    no_session: bool,
) -> (LimiterState, Result<(), TwitterErrorView>, nat) {
    match input {
        Err(e) => (s, Err(e), 0),
        Ok(_) => {
            let (s1, a) = acquire_outcome(s, now);
            match a {
                Err(e) => (s1, Err(e), 0),
                Ok(d) => (s1, if no_session {
                    Err(TwitterErrorView::NoSession)
                } else {
                    Ok(())
                }, d),
            }
        },
    }
}

/// Admits a request of a tool: the result of input validation, then the rate
/// limiter at `now_ms`, then the session check.
pub fn admit_request(
    input_check: Result<(), TwitterError>,
    session: &TwitterSession,
    rate_limiter: &mut RateLimiter,
    now_ms: u64,
) -> (r: (Result<(), TwitterError>, u64))
    ensures
        final(rate_limiter)@ == admission_outcome(
            outcome(input_check),
            old(rate_limiter)@,
            now_ms as nat,
            session_missing(*session),
        ).0,
        outcome(r.0) == admission_outcome(
            outcome(input_check),
            old(rate_limiter)@,
            now_ms as nat,
            session_missing(*session),
        ).1,
        r.1 as nat == admission_outcome(
            outcome(input_check),
            old(rate_limiter)@,
            now_ms as nat,
            session_missing(*session),
        ).2,
{
    match input_check {
        Err(e) => (Err(e), 0),
        Ok(()) => match rate_limiter.acquire(now_ms) {
            Err(e) => (Err(e), 0),
            Ok(delay) => (validate_session(session), delay),
        },
    }
}

/// A request whose input is refused takes nothing from the rate limiter: its
/// state is unchanged and there is no wait; only a valid input is counted.
pub proof fn law_refused_input_costs_nothing(
    e: TwitterErrorView,
    s: LimiterState,
    now: nat,
    no_session: bool,
)
    ensures
        admission_outcome(Err(e), s, now, no_session) == (s, Err::<(), TwitterErrorView>(e), 0nat),
{
}

} // verus!
