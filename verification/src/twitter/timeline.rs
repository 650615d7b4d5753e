//! Twitter timeline tool: get the home, following or user timeline.
use crate::text::{chars_of, is_alphanumeric, is_ascii_alphanumeric};
use crate::twitter::error::{outcome, TwitterError, TwitterErrorView};
use crate::twitter::post::check_of;
use crate::twitter::rate_limiter::{LimiterState, RateLimitConfig, RateLimiter};
use crate::twitter::session::{admission_outcome, admit_request, session_missing};
use crate::twitter::types::{
    TimelineType, Tweet, TwitterGetTimelineInput, TwitterGetTimelineResult, TwitterSession,
};
use vstd::prelude::*;
use vstd::string::*;
use vstd::utf8::encode_utf8;

verus! {

/// A username has 1 to 15 bytes, all ASCII letters, digits or underscores.
pub open spec fn username_ok(u: Seq<char>) -> bool {
    &&& u.len() > 0
    &&& encode_utf8(u).len() <= 15
    &&& forall|i: int| 0 <= i < u.len() ==> #[trigger] is_ascii_alphanumeric(u[i]) || u[i] == '_'
}

/// The optional username as text.
pub open spec fn username_view(input: TwitterGetTimelineInput) -> Option<Seq<char>> {
    match input.username {
        Some(u) => Some(u@),
        None => None,
    }
}

/// Why a timeline input is refused, if it is.
pub open spec fn timeline_input_error(
    timeline_type: TimelineType,
    username: Option<Seq<char>>,
    count: nat,
) -> Option<TwitterErrorView> {
    if timeline_type == TimelineType::User && username is None {
        Some(TwitterErrorView::InvalidInput { message: "Username is required for user timeline"@ })
    } else if count == 0 {
        Some(TwitterErrorView::InvalidInput { message: "Count must be greater than 0"@ })
    } else if count > 100 {
        Some(TwitterErrorView::InvalidInput { message: "Count cannot exceed 100"@ })
    } else {
        match username {
            Some(u) => if !username_ok(u) {
                Some(TwitterErrorView::InvalidInput { message: "Invalid username format: "@ + u })
            } else {
                None
            },
            None => None,
        }
    }
}

/// The timeline page URL, or the refusal when a user timeline has no username.
pub open spec fn timeline_url(timeline_type: TimelineType, username: Option<Seq<char>>) -> Result<
    Seq<char>,
    TwitterErrorView,
> {
    match timeline_type {
        TimelineType::Home => Ok("https://twitter.com/home"@),
        TimelineType::Following => Ok("https://twitter.com/home?f=following"@),
        TimelineType::User => match username {
            Some(u) => Ok("https://twitter.com/"@ + u),
            None => Err(
                TwitterErrorView::InvalidInput { message: "Username is required for user timeline"@ },
            ),
        },
    }
}

/// Check if a username is valid: 1 to 15 bytes of ASCII letters, digits and `_`.
pub fn is_valid_username(username: &str) -> (r: bool)
    ensures
        r == username_ok(username@),
{
    if username.is_empty() || username.as_bytes().len() > 15 {
        return false;
    }
    let chars = chars_of(username);
    let mut i: usize = 0;
    while i < chars.len()
        invariant
            i <= chars.len(),
            chars@ == username@,
            username@.len() > 0,
            encode_utf8(username@).len() <= 15,
            forall|j: int| 0 <= j < i ==> #[trigger] is_ascii_alphanumeric(chars@[j]) || chars@[j]
                == '_',
        decreases chars.len() - i,
    {
        let c = chars[i];
        if !(is_alphanumeric(c) || c == '_') {
            assert(!(is_ascii_alphanumeric(chars@[i as int]) || chars@[i as int] == '_'));
            return false;
        }
        i = i + 1;
    }
    true
}

/// Validate the timeline input.
pub fn validate_timeline_input(input: &TwitterGetTimelineInput) -> (r: Result<(), TwitterError>)
    ensures
        r is Ok ==> 1 <= input.count <= 100,
        outcome(r) == check_of(
            timeline_input_error(input.timeline_type, username_view(*input), input.count as nat),
        ),
{
    if input.timeline_type == TimelineType::User && input.username.is_none() {
        return Err(
            TwitterError::InvalidInput {
                message: String::from_str("Username is required for user timeline"),
            },
        );
    }
    if input.count == 0 {
        return Err(
            TwitterError::InvalidInput { message: String::from_str("Count must be greater than 0") },
        );
    }
    if input.count > 100 {
        return Err(
            TwitterError::InvalidInput { message: String::from_str("Count cannot exceed 100") },
        );
    }
    if let Some(username) = &input.username {
        if !is_valid_username(username.as_str()) {
            return Err(
                TwitterError::InvalidInput {
                    message: String::from_str("Invalid username format: ").concat(
                        username.as_str(),
                    ),
                },
            );
        }
    }
    Ok(())
}

/// Build the timeline URL for the given input.
pub fn build_timeline_url(input: &TwitterGetTimelineInput) -> (r: Result<String, TwitterError>)
    ensures
        match r {
            Ok(url) => timeline_url(input.timeline_type, username_view(*input)) == Ok::<
                Seq<char>,
                TwitterErrorView,
            >(url@),
            Err(e) => timeline_url(input.timeline_type, username_view(*input)) == Err::<
                Seq<char>,
                TwitterErrorView,
            >(e@),
        },
{
    match input.timeline_type {
        TimelineType::Home => Ok(String::from_str("https://twitter.com/home")),
        TimelineType::Following => Ok(String::from_str("https://twitter.com/home?f=following")),
        TimelineType::User => match &input.username {
            Some(username) => Ok(String::from_str("https://twitter.com/").concat(username.as_str())),
            None => Err(
                TwitterError::InvalidInput {
                    message: String::from_str("Username is required for user timeline"),
                },
            ),
        },
    }
}

/// Get a Twitter timeline at time `now_ms`.
///
/// Validates the input, then takes a token from the rate limiter, then checks
/// the session; a granted request answers with an empty page. Returns the
/// answer and the milliseconds to wait before giving it.
pub fn twitter_get_timeline(
    input: &TwitterGetTimelineInput,
    session: &TwitterSession,
    rate_limiter: &mut RateLimiter,
    now_ms: u64,
) -> (r: (Result<TwitterGetTimelineResult, TwitterError>, u64))
    ensures
        ({
            let g = admission_outcome(
                check_of(
                    timeline_input_error(
                        input.timeline_type,
                        username_view(*input),
                        input.count as nat,
                    ),
                ),
                old(rate_limiter)@,
                now_ms as nat,
                session_missing(*session),
            );
            &&& final(rate_limiter)@ == g.0
            &&& outcome(r.0) == g.1
            &&& r.1 as nat == g.2
            &&& (r.0 matches Ok(res) ==> res.success && res.tweets@.len() == 0
                && res.next_cursor is None && res.error is None)
        }),
{
    let (admitted, delay) = admit_request(validate_timeline_input(input), session, rate_limiter, now_ms);
    match admitted {
        Err(e) => (Err(e), delay),
        Ok(()) => match build_timeline_url(input) {
            Err(e) => (Err(e), delay),
            Ok(_timeline_url) => (
                Ok(
                    TwitterGetTimelineResult {
                        success: true,
                        tweets: Vec::new(),
                        next_cursor: None,
                        error: None,
                    },
                ),
                delay,
            ),
        },
    }
}

/// Create a rate limiter configured for timeline reading.
pub fn create_timeline_rate_limiter(now_ms: u64) -> (r: RateLimiter)
    ensures
        r@ == (LimiterState {
            config: RateLimitConfig { max_requests: 100, window_seconds: 900, min_delay_ms: 500 },
            tokens: 100,
            last_request_ms: now_ms as nat,
            window_start_ms: now_ms as nat,
        }),
{
    RateLimiter::new(RateLimitConfig::for_read(), now_ms)
}

/// Parse tweets from the timeline page. The page's markup is not read: no
/// page yields tweets.
pub fn parse_timeline_tweets(_html: &str, _max_count: usize) -> (r: Vec<Tweet>)
    ensures
        r@.len() == 0,
{
    Vec::new()
}

/// An accepted timeline request asks for 1 to 100 tweets; a request for more
/// than 100 whose timeline has the username it needs is refused with "Count
/// cannot exceed 100", whatever the username's format.
pub proof fn law_timeline_count_bounds(
    timeline_type: TimelineType,
    username: Option<Seq<char>>,
    count: nat,
)
    ensures
        timeline_input_error(timeline_type, username, count) is None ==> 1 <= count <= 100,
        !(timeline_type == TimelineType::User && username is None) && count > 100
            ==> timeline_input_error(timeline_type, username, count) == Some(
            TwitterErrorView::InvalidInput { message: "Count cannot exceed 100"@ },
        ),
{
}

} // verus!
