//! Twitter read thread tool: reads an entire thread and extracts its tweets.
use crate::text::{
    all_digits, before_char, chars_all_digits, chars_before, chars_eq, chars_from, chars_of,
    ends_with_chars, find_chars, find_seq_from, has_suffix, is_ascii_digit, lemma_find_seq_from, join_with, lemma_first_index_of, lemma_split_join, split_chars,
    split_on, string_of, to_lowercase, unicode_lowercase,
};
use crate::twitter::error::{outcome, TwitterError, TwitterErrorView};
use crate::twitter::rate_limiter::{LimiterState, RateLimitConfig, RateLimiter};
use crate::twitter::session::{admission_outcome, admit_request, session_missing};
use crate::twitter::types::{Tweet, TwitterReadThreadInput, TwitterReadThreadResult, TwitterSession};
use vstd::prelude::*;
use vstd::string::*;

verus! {

/// The id after the first `status` segment, at or after segment `i`, that is
/// followed by a non-empty run of digits (up to any `?`).
pub open spec fn status_id_from(parts: Seq<Seq<char>>, i: int) -> Option<Seq<char>>
    decreases parts.len() - i,
{
    if i < 0 || i >= parts.len() {
        None
    } else if parts[i] == "status"@ && i + 1 < parts.len() && before_char(parts[i + 1], '?').len()
        > 0 && all_digits(before_char(parts[i + 1], '?')) {
        Some(before_char(parts[i + 1], '?'))
    } else {
        status_id_from(parts, i + 1)
    }
}

/// The host of a URL: the text after its first `://` (or the whole URL when
/// it has none) up to the next `/`.
pub open spec fn url_host(url: Seq<char>) -> Seq<char> {
    let rest = match find_seq_from(url, "://"@, 0) {
        Some(i) => url.skip(i + 3),
        None => url,
    };
    before_char(rest, '/')
}

/// A host of Twitter or X: `twitter.com`, `x.com`, or one of their subdomains.
pub open spec fn is_twitter_host(host: Seq<char>) -> bool {
    host == "twitter.com"@ || host == "x.com"@ || has_suffix(host, ".twitter.com"@) || has_suffix(
        host,
        ".x.com"@,
    )
}

/// The tweet id in a Twitter/X URL, given the URL and its lowercase form: the
/// host of the lowercase form must be Twitter's or X's, and the id is taken
/// from the `/status/<digits>` part of the URL as written.
pub open spec fn id_from_url(url: Seq<char>, lower: Seq<char>) -> Option<Seq<char>> {
    if !is_twitter_host(url_host(lower)) {
        None
    } else {
        status_id_from(split_on(url, '/'), 0)
    }
}

/// The tweet id named by a URL or id: a non-empty run of digits is taken as
/// it is, otherwise the id is read from the URL.
pub open spec fn tweet_id_of(s: Seq<char>, lower: Seq<char>) -> Result<Seq<char>, TwitterErrorView> {
    if s.len() > 0 && all_digits(s) {
        Ok(s)
    } else {
        match id_from_url(s, lower) {
            Some(id) => Ok(id),
            None => Err(
                TwitterErrorView::InvalidInput { message: "Could not extract tweet ID from: "@ + s },
            ),
        }
    }
}

/// The host of a URL given as characters.
fn host_of(url: &Vec<char>) -> (r: Vec<char>)
    ensures
        r@ == url_host(url@),
{
    let sep = chars_of("://");
    proof {
        reveal_strlit("://");
        lemma_find_seq_from(url@, "://"@, 0);
    }
    let rest = match find_chars(url, &sep) {
        Some(i) => chars_from(url, i + 3),
        None => chars_from(url, 0),
    };
    proof {
        if find_seq_from(url@, "://"@, 0) is None {
            assert(url@.skip(0) =~= url@);
        }
    }
    chars_before(&rest, '/')
}

/// Whether a host is Twitter's or X's.
fn twitter_host(host: &Vec<char>) -> (r: bool)
    ensures
        r == is_twitter_host(host@),
{
    chars_eq(host, &chars_of("twitter.com")) || chars_eq(host, &chars_of("x.com")) || ends_with_chars(
        host,
        &chars_of(".twitter.com"),
    ) || ends_with_chars(host, &chars_of(".x.com"))
}

/// Extracts the tweet id from a URL whose lowercase form is `lower`.
pub fn extract_id_from_lowercased(url: &str, lower: &str) -> (r: Option<String>)
    ensures
        match r {
            Some(id) => id_from_url(url@, lower@) == Some(id@),
            None => id_from_url(url@, lower@) is None,
        },
{
    let l = chars_of(lower);
    let host = host_of(&l);
    if !twitter_host(&host) {
        return None;
    }
    let u = chars_of(url);
    let parts = split_chars(&u, '/');
    let ghost p = parts@.map_values(|v: Vec<char>| v@);
    let status = chars_of("status");
    let mut i: usize = 0;
    while i < parts.len()
        invariant
            i <= parts.len(),
            p == parts@.map_values(|v: Vec<char>| v@),
            p == split_on(u@, '/'),
            u@ == url@,
            status@ == "status"@,
            is_twitter_host(url_host(lower@)),
            status_id_from(p, 0) == status_id_from(p, i as int),
        decreases parts.len() - i,
    {
        assert(p[i as int] == parts@[i as int]@);
        if chars_eq(&parts[i], &status) && i + 1 < parts.len() {
            assert(p[i + 1] == parts@[i + 1]@);
            let id = chars_before(&parts[i + 1], '?');
            if chars_all_digits(&id) && id.len() > 0 {
                return Some(string_of(&id));
            }
        }
        i = i + 1;
    }
    None
}

/// Extract the tweet id from a Twitter/X URL.
pub fn extract_id_from_url(url: &str) -> (r: Option<String>)
    ensures
        match r {
            Some(id) => id_from_url(url@, unicode_lowercase(url@)) == Some(id@),
            None => id_from_url(url@, unicode_lowercase(url@)) is None,
        },
{
    let lower = to_lowercase(url);
    extract_id_from_lowercased(url, lower.as_str())
}

/// What `status_id_from` finds is a non-empty run of digits.
proof fn lemma_status_id_digits(parts: Seq<Seq<char>>, i: int)
    ensures
        status_id_from(parts, i) matches Some(id) ==> id.len() > 0 && all_digits(id),
    decreases parts.len() - i,
{
    if 0 <= i < parts.len() {
        lemma_status_id_digits(parts, i + 1);
    }
}

/// Extract the tweet id from a URL, or use the input as it is when it is a
/// non-empty run of digits.
pub fn extract_tweet_id(url_or_id: &str) -> (r: Result<String, TwitterError>)
    ensures
        r matches Ok(id) ==> id@.len() > 0 && all_digits(id@),
        url_or_id@.len() == 0 ==> r matches Err(TwitterError::InvalidInput { .. }),
        match r {
            Ok(id) => tweet_id_of(url_or_id@, unicode_lowercase(url_or_id@)) == Ok::<
                Seq<char>,
                TwitterErrorView,
            >(id@),
            Err(e) => tweet_id_of(url_or_id@, unicode_lowercase(url_or_id@)) == Err::<
                Seq<char>,
                TwitterErrorView,
            >(e@),
        },
{
    if !url_or_id.is_empty() && chars_all_digits(&chars_of(url_or_id)) {
        return Ok(String::from_str(url_or_id));
    }
    proof {
        lemma_status_id_digits(split_on(url_or_id@, '/'), 0);
        if url_or_id@.len() == 0 {
            crate::text::lemma_first_index_of(url_or_id@, '/');
            assert(split_on(url_or_id@, '/') == seq![url_or_id@]);
            reveal_strlit("status");
            let parts = split_on(url_or_id@, '/');
            assert(parts.len() == 1 && parts[0] == url_or_id@);
            assert(url_or_id@.len() != "status"@.len());
            assert(status_id_from(parts, 1) is None);
            assert(status_id_from(parts, 0) is None);
        }
    }
    match extract_id_from_url(url_or_id) {
        Some(id) => Ok(id),
        None => Err(
            TwitterError::InvalidInput {
                message: String::from_str("Could not extract tweet ID from: ").concat(url_or_id),
            },
        ),
    }
}

/// The outcome of the id check, with the id dropped.
pub open spec fn id_check(s: Seq<char>) -> Result<(), TwitterErrorView> {
    match tweet_id_of(s, unicode_lowercase(s)) {
        Ok(_) => Ok(()),
        Err(e) => Err(e),
    }
}

/// The placeholder thread returned for a tweet id.
pub open spec fn placeholder_thread(r: TwitterReadThreadResult, id: Seq<char>) -> bool {
    &&& r.success
    &&& r.tweets@.len() == 1
    &&& r.tweets@[0].id@ == id
    &&& r.tweets@[0].text@ == "Placeholder tweet text"@
    &&& r.tweets@[0].author@ == "placeholder_user"@
    &&& r.tweets@[0].author_display_name@ == "Placeholder User"@
    &&& r.tweets@[0].timestamp@ == "2024-01-01T00:00:00Z"@
    &&& r.tweets@[0].likes == 0
    &&& r.tweets@[0].retweets == 0
    &&& r.tweets@[0].replies == 0
    &&& r.tweets@[0].media@.len() == 0
    &&& r.total_count == 1
    &&& r.error is None
}

/// Read a Twitter thread at time `now_ms`.
///
/// Extracts the tweet id, then takes a token from the rate limiter, then checks
/// the session. Returns the answer and the milliseconds to wait before giving it.
pub fn twitter_read_thread(
    input: &TwitterReadThreadInput,
    session: &TwitterSession,
    rate_limiter: &mut RateLimiter,
    now_ms: u64,
) -> (r: (Result<TwitterReadThreadResult, TwitterError>, u64))
    ensures
        ({
            let g = admission_outcome(
                id_check(input.tweet_url_or_id@),
                old(rate_limiter)@,
                now_ms as nat,
                session_missing(*session),
            );
            &&& final(rate_limiter)@ == g.0
            &&& outcome(r.0) == g.1
            &&& r.1 as nat == g.2
            &&& (r.0 matches Ok(res) ==> tweet_id_of(
                input.tweet_url_or_id@,
                unicode_lowercase(input.tweet_url_or_id@),
            ) matches Ok(id) && placeholder_thread(res, id))
        }),
{
    let extracted = extract_tweet_id(input.tweet_url_or_id.as_str());
    let (check, tweet_id) = match extracted {
        Ok(id) => (Ok(()), id),
        Err(e) => (Err(e), String::new()),
    };
    let (admitted, delay) = admit_request(check, session, rate_limiter, now_ms);
    match admitted {
        Err(e) => (Err(e), delay),
        Ok(()) => {
            let placeholder_tweet = Tweet {
                id: tweet_id,
                text: String::from_str("Placeholder tweet text"),
                author: String::from_str("placeholder_user"),
                author_display_name: String::from_str("Placeholder User"),
                timestamp: String::from_str("2024-01-01T00:00:00Z"),
                likes: 0,
                retweets: 0,
                replies: 0,
                media: Vec::new(),
            };
            let mut tweets = Vec::new();
            tweets.push(placeholder_tweet);
            (Ok(TwitterReadThreadResult { success: true, tweets, total_count: 1, error: None }), delay)
        },
    }
}

/// Create a rate limiter configured for reading.
pub fn create_read_rate_limiter(now_ms: u64) -> (r: RateLimiter)
    ensures
        r@ == (LimiterState {
            config: RateLimitConfig { max_requests: 100, window_seconds: 900, min_delay_ms: 500 },
            tokens: 100,
            last_request_ms: now_ms as nat,
            window_start_ms: now_ms as nat,
        }),
{
    RateLimiter::new(RateLimitConfig::for_read(), now_ms)
}

/// A status URL, `https://twitter.com/<user>/status/<id>` or the same on
/// `x.com`, names the tweet `<id>`, for any user name without `/` and any
/// non-empty run of digits as the id, whenever the host of the URL's
/// lowercase form is Twitter's or X's.
pub proof fn law_status_url_names_its_tweet(
    host: Seq<char>,
    user: Seq<char>,
    id: Seq<char>,
    lower: Seq<char>,
)
    requires
        host == "twitter.com"@ || host == "x.com"@,
        is_twitter_host(url_host(lower)),
        forall|j: int| 0 <= j < user.len() ==> user[j] != '/',
        id.len() > 0,
        all_digits(id),
    ensures
        tweet_id_of("https://"@ + host + "/"@ + user + "/status/"@ + id, lower) == Ok::<
            Seq<char>,
            TwitterErrorView,
        >(id),
{
    reveal_strlit("https://");
    reveal_strlit("/");
    reveal_strlit("/status/");
    reveal_strlit("status");
    reveal_strlit("twitter.com");
    reveal_strlit("x.com");
    reveal_strlit("https:");
    reveal_strlit("");
    let url = "https://"@ + host + "/"@ + user + "/status/"@ + id;
    let parts = seq!["https:"@, ""@, host, user, "status"@, id];
    // The URL is the join of its segments.
    assert(parts.take(1) =~= seq!["https:"@]);
    assert(join_with(parts.take(1), '/') == "https:"@);
    assert(parts.take(2).drop_last() =~= parts.take(1));
    assert(parts.take(3).drop_last() =~= parts.take(2));
    assert(parts.take(4).drop_last() =~= parts.take(3));
    assert(parts.take(5).drop_last() =~= parts.take(4));
    assert(parts.take(6).drop_last() =~= parts.take(5));
    assert(join_with(parts.take(2), '/') == "https:"@.push('/') + ""@);
    assert(join_with(parts.take(3), '/') == join_with(parts.take(2), '/').push('/') + host);
    assert(join_with(parts.take(4), '/') == join_with(parts.take(3), '/').push('/') + user);
    assert(join_with(parts.take(5), '/') == join_with(parts.take(4), '/').push('/') + "status"@);
    assert(join_with(parts.take(6), '/') == join_with(parts.take(5), '/').push('/') + id);
    assert(parts.take(6) =~= parts);
    assert(join_with(parts, '/') =~= url);
    // No segment holds a `/`.
    assert forall|i: int, j: int| 0 <= i < parts.len() && 0 <= j < parts[i].len() implies parts[i][j]
        != '/' by {
        if i == 4 || i == 5 {
            if i == 5 {
                assert(is_ascii_digit(id[j]));
            }
        }
    }
    lemma_split_join(parts, '/');
    // Reading the segments: the id follows the last `status` segment.
    assert forall|j: int| 0 <= j < id.len() implies id[j] != '?' by {
        assert(is_ascii_digit(id[j]));
    }
    lemma_first_index_of(id, '?');
    assert(before_char(id, '?') == id);
    lemma_first_index_of("status"@, '?');
    assert(before_char("status"@, '?') == "status"@);
    assert(!all_digits("status"@)) by {
        assert(!is_ascii_digit("status"@[0]));
    }
    assert(status_id_from(parts, 4) == Some(id));
    assert(status_id_from(parts, 3) == Some(id));
    assert("status"@ != host) by {
        assert("status"@.len() != host.len());
    }
    assert(status_id_from(parts, 2) == Some(id));
    assert(""@ != "status"@);
    assert(status_id_from(parts, 1) == Some(id));
    assert("https:"@ != "status"@) by {
        assert("https:"@[0] != "status"@[0]);
    }
    assert(status_id_from(parts, 0) == Some(id));
    assert(id_from_url(url, lower) == Some(id));
    assert(!all_digits(url)) by {
        assert(!is_ascii_digit(url[0]));
    }
}

} // verus!
