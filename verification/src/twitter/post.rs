//! Twitter post tool: posts a tweet with optional media and reply support.
use crate::text::{
    all_whitespace, chars_all_whitespace, is_unicode_whitespace, chars_of, has_prefix, starts_with_chars, to_lowercase,
    unicode_lowercase,
};
use crate::twitter::error::{outcome, TwitterError, TwitterErrorView};
use crate::twitter::rate_limiter::{RateLimitConfig, RateLimiter, LimiterState};
use crate::twitter::session::{admission_outcome, admit_request, session_missing};
use crate::twitter::types::{TwitterPostInput, TwitterPostResult, TwitterSession, TWEET_MAX_LENGTH};
use vstd::prelude::*;
use vstd::string::*;

verus! {

/// A lowercased URL is acceptable media when it is an http, https or data URL.
pub open spec fn lowercased_media_ok(lower: Seq<char>) -> bool {
    has_prefix(lower, "http://"@) || has_prefix(lower, "https://"@) || has_prefix(
        lower,
        "data:"@,
    )
}

/// A media URL is acceptable when its lowercase form starts with `http://`,
/// `https://` or `data:`.
pub open spec fn media_url_ok(url: Seq<char>) -> bool {
    lowercased_media_ok(unicode_lowercase(url))
}

/// The first media URL at or after `i` that is not acceptable.
pub open spec fn first_bad_media_from(urls: Seq<Seq<char>>, i: int) -> Option<int>
    decreases urls.len() - i,
{
    if i < 0 || i >= urls.len() {
        None
    } else if !media_url_ok(urls[i]) {
        Some(i)
    } else {
        first_bad_media_from(urls, i + 1)
    }
}

/// Why a post input is refused, if it is: the tweet is too long, it has neither
/// text nor media, or one of its media URLs (the first bad one) is unacceptable.
pub open spec fn post_input_error(text: Seq<char>, urls: Seq<Seq<char>>) -> Option<
    TwitterErrorView,
> {
    if text.len() > 280 {
        Some(TwitterErrorView::TweetTooLong { max: 280, actual: text.len() })
    } else if all_whitespace(text) && urls.len() == 0 {
        Some(TwitterErrorView::InvalidInput { message: "Tweet must have text or media"@ })
    } else {
        match first_bad_media_from(urls, 0) {
            Some(i) => Some(TwitterErrorView::InvalidInput { message: "Invalid media URL: "@ + urls[i] }),
            None => None,
        }
    }
}

/// Turns an optional refusal into the outcome of a check.
pub open spec fn check_of(e: Option<TwitterErrorView>) -> Result<(), TwitterErrorView> {
    match e {
        Some(e) => Err(e),
        None => Ok(()),
    }
}

/// Checks an already lowercased media URL.
pub fn is_valid_lowercased_media_url(lower: &str) -> (r: bool)
    ensures
        r == lowercased_media_ok(lower@),
{
    let l = chars_of(lower);
    starts_with_chars(&l, &chars_of("http://")) || starts_with_chars(&l, &chars_of("https://"))
        || starts_with_chars(&l, &chars_of("data:"))
}

/// Check if a URL is a valid media URL.
pub fn is_valid_media_url(url: &str) -> (r: bool)
    ensures
        r == media_url_ok(url@),
{
    let lower = to_lowercase(url);
    is_valid_lowercased_media_url(lower.as_str())
}

/// Validate the post input.
pub fn validate_post_input(input: &TwitterPostInput) -> (r: Result<(), TwitterError>)
    ensures
        outcome(r) == check_of(post_input_error(input.text@, input.media_urls.deep_view())),
{
    let ghost urls = input.media_urls.deep_view();
    let char_count = input.text.as_str().unicode_len();
    if char_count > TWEET_MAX_LENGTH {
        return Err(TwitterError::TweetTooLong { max: TWEET_MAX_LENGTH, actual: char_count });
    }
    let text = chars_of(input.text.as_str());
    if chars_all_whitespace(&text) && input.media_urls.len() == 0 {
        return Err(
            TwitterError::InvalidInput { message: String::from_str("Tweet must have text or media") },
        );
    }
    let mut i: usize = 0;
    while i < input.media_urls.len()
        invariant
            i <= input.media_urls.len(),
            urls == input.media_urls.deep_view(),
            urls.len() == input.media_urls.len(),
            first_bad_media_from(urls, 0) == first_bad_media_from(urls, i as int),
            input.text@.len() <= 280,
            !(all_whitespace(input.text@) && urls.len() == 0),
        decreases input.media_urls.len() - i,
    {
        assert(urls[i as int] == input.media_urls[i as int]@);
        if !is_valid_media_url(input.media_urls[i].as_str()) {
            let message = String::from_str("Invalid media URL: ").concat(
                input.media_urls[i].as_str(),
            );
            return Err(TwitterError::InvalidInput { message });
        }
        i = i + 1;
    }
    Ok(())
}

/// The placeholder answer of a successful post.
pub open spec fn placeholder_post(r: TwitterPostResult) -> bool {
    &&& r.success
    &&& r.tweet_id matches Some(t) && t@ == "placeholder_tweet_id"@
    &&& r.tweet_url matches Some(u) && u@ == "https://twitter.com/user/status/placeholder_tweet_id"@
    &&& r.error is None
}

/// Post a tweet at time `now_ms`.
///
/// Validates the input, then takes a token from the rate limiter, then checks
/// the session. Returns the answer and the milliseconds to wait before giving
/// it (the pacing delay the limiter asked for).
pub fn twitter_post(
    input: &TwitterPostInput,
    session: &TwitterSession,
    rate_limiter: &mut RateLimiter,
    now_ms: u64,
) -> (r: (Result<TwitterPostResult, TwitterError>, u64))
    ensures
        ({
            let g = admission_outcome(
                check_of(post_input_error(input.text@, input.media_urls.deep_view())),
                old(rate_limiter)@,
                now_ms as nat,
                session_missing(*session),
            );
            &&& final(rate_limiter)@ == g.0
            &&& outcome(r.0) == g.1
            &&& r.1 as nat == g.2
            &&& (r.0 matches Ok(res) ==> placeholder_post(res))
        }),
{
    let (admitted, delay) = admit_request(validate_post_input(input), session, rate_limiter, now_ms);
    match admitted {
        Err(e) => (Err(e), delay),
        Ok(()) => (
            Ok(
                TwitterPostResult {
                    success: true,
                    tweet_id: Some(String::from_str("placeholder_tweet_id")),
                    tweet_url: Some(
                        String::from_str("https://twitter.com/user/status/placeholder_tweet_id"),
                    ),
                    error: None,
                },
            ),
            delay,
        ),
    }
}

/// Create a rate limiter configured for posting.
pub fn create_post_rate_limiter(now_ms: u64) -> (r: RateLimiter)
    ensures
        r@ == (LimiterState {
            config: RateLimitConfig { max_requests: 25, window_seconds: 900, min_delay_ms: 2000 },
            tokens: 25,
            last_request_ms: now_ms as nat,
            window_start_ms: now_ms as nat,
        }),
{
    RateLimiter::new(RateLimitConfig::for_post(), now_ms)
}

proof fn lemma_no_bad_media(urls: Seq<Seq<char>>, i: int)
    requires
        0 <= i,
        forall|j: int| i <= j < urls.len() ==> #[trigger] media_url_ok(urls[j]),
    ensures
        first_bad_media_from(urls, i) is None,
    decreases urls.len() - i,
{
    if i < urls.len() {
        lemma_no_bad_media(urls, i + 1);
    }
}

/// A post of at most 280 characters with at least one media URL, each
/// starting (lowercased) with `http://`, `https://` or `data:`, is accepted
/// whatever its text, even none.
pub proof fn law_media_post_needs_no_text(text: Seq<char>, urls: Seq<Seq<char>>)
    requires
        text.len() <= 280,
        urls.len() > 0,
        forall|i: int|
            0 <= i < urls.len() ==> has_prefix(unicode_lowercase(#[trigger] urls[i]), "http://"@)
                || has_prefix(unicode_lowercase(urls[i]), "https://"@) || has_prefix(
                unicode_lowercase(urls[i]),
                "data:"@,
            ),
    ensures
        post_input_error(text, urls) is None,
{
    assert forall|j: int| 0 <= j < urls.len() implies #[trigger] media_url_ok(urls[j]) by {}
    lemma_no_bad_media(urls, 0);
}

/// An accepted post has at most 280 characters, and it has some text that
/// is not whitespace or at least one media URL.
pub proof fn law_accepted_post_has_content(text: Seq<char>, urls: Seq<Seq<char>>)
    requires
        post_input_error(text, urls) is None,
    ensures
        text.len() <= 280,
        urls.len() > 0 || exists|i: int| 0 <= i < text.len() && !is_unicode_whitespace(#[trigger] text[i]),
{
}

} // verus!
