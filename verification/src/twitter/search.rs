//! Twitter search tool: search for tweets matching a query.
use crate::text::{all_whitespace, chars_all_whitespace, chars_of, digit_char, push_char};
use crate::twitter::error::{outcome, TwitterError, TwitterErrorView};
use crate::twitter::post::check_of;
use crate::twitter::rate_limiter::{LimiterState, RateLimitConfig, RateLimiter};
use crate::twitter::session::{admission_outcome, admit_request, session_missing};
use crate::twitter::types::{SearchFilter, Tweet, TwitterSearchInput, TwitterSearchResult, TwitterSession};
use vstd::prelude::*;
use vstd::string::*;
use vstd::utf8::encode_utf8;

verus! {

/// Bytes that URL encoding leaves as they are: ASCII letters, digits and `-_.~`.
pub open spec fn is_unreserved_byte(b: u8) -> bool {
    (65 <= b && b <= 90) || (97 <= b && b <= 122) || (48 <= b && b <= 57) || b == 45 || b == 95
        || b == 46 || b == 126
}

/// The uppercase hexadecimal digit for `d` (below 16).
pub open spec fn hex_digit(d: nat) -> char {
    if d < 10 {
        digit_char(d)
    } else if d == 10 {
        'A'
    } else if d == 11 {
        'B'
    } else if d == 12 {
        'C'
    } else if d == 13 {
        'D'
    } else if d == 14 {
        'E'
    } else {
        'F'
    }
}

/// How one byte is written in a URL: itself when unreserved, `%XX` otherwise.
pub open spec fn byte_encoding(b: u8) -> Seq<char> {
    if is_unreserved_byte(b) {
        seq![b as char]
    } else {
        seq!['%', hex_digit((b / 16) as nat), hex_digit((b % 16) as nat)]
    }
}

/// Percent-encoding of a byte sequence, byte by byte.
pub open spec fn percent_encode(bytes: Seq<u8>) -> Seq<char>
    decreases bytes.len(),
{
    if bytes.len() == 0 {
        seq![]
    } else {
        percent_encode(bytes.drop_last()) + byte_encoding(bytes.last())
    }
}

/// The query parameter that selects a search filter.
pub open spec fn filter_param(filter: SearchFilter) -> Seq<char> {
    match filter {
        SearchFilter::Top => ""@,
        SearchFilter::Latest => "&f=live"@,
        SearchFilter::People => "&f=user"@,
        SearchFilter::Photos => "&f=image"@,
        SearchFilter::Videos => "&f=video"@,
    }
}

/// The search page URL for a query and filter.
pub open spec fn search_url(query: Seq<char>, filter: SearchFilter) -> Seq<char> {
    "https://twitter.com/search?q="@ + percent_encode(encode_utf8(query)) + filter_param(filter)
        + "&src=typed_query"@
}

/// Why a search input is refused, if it is.
pub open spec fn search_input_error(query: Seq<char>, count: nat) -> Option<TwitterErrorView> {
    if all_whitespace(query) {
        Some(TwitterErrorView::InvalidInput { message: "Search query cannot be empty"@ })
    } else if count == 0 {
        Some(TwitterErrorView::InvalidInput { message: "Count must be greater than 0"@ })
    } else if count > 100 {
        Some(TwitterErrorView::InvalidInput { message: "Count cannot exceed 100"@ })
    } else {
        None
    }
}

fn hex_char(d: u8) -> (c: char)
    requires
        d < 16,
    ensures
        c == hex_digit(d as nat),
{
    if d == 0 {
        '0'
    } else if d == 1 {
        '1'
    } else if d == 2 {
        '2'
    } else if d == 3 {
        '3'
    } else if d == 4 {
        '4'
    } else if d == 5 {
        '5'
    } else if d == 6 {
        '6'
    } else if d == 7 {
        '7'
    } else if d == 8 {
        '8'
    } else if d == 9 {
        '9'
    } else if d == 10 {
        'A'
    } else if d == 11 {
        'B'
    } else if d == 12 {
        'C'
    } else if d == 13 {
        'D'
    } else if d == 14 {
        'E'
    } else {
        'F'
    }
}

/// URL encoding of the search query: the UTF-8 bytes of `s`, each unreserved
/// byte as it is and every other byte as `%XX` (a space becomes `%20`).
pub fn urlencoding(s: &str) -> (r: String)
    ensures
        r@ == percent_encode(encode_utf8(s@)),
{
    let bytes = s.as_bytes();
    let ghost b = bytes@;
    let mut result = String::new();
    let mut i: usize = 0;
    while i < bytes.len()
        invariant
            i <= bytes.len(),
            b == bytes@,
            result@ == percent_encode(b.take(i as int)),
        decreases bytes.len() - i,
    {
        let byte = bytes[i];
        let ghost before = result@;
        let unreserved = (65 <= byte && byte <= 90) || (97 <= byte && byte <= 122) || (48 <= byte
            && byte <= 57) || byte == 45 || byte == 95 || byte == 46 || byte == 126;
        if unreserved {
            push_char(&mut result, byte as char);
        } else {
            push_char(&mut result, '%');
            push_char(&mut result, hex_char(byte / 16));
            push_char(&mut result, hex_char(byte % 16));
        }
        proof {
            assert(b.take(i + 1).drop_last() =~= b.take(i as int));
            assert(b.take(i + 1).last() == byte);
            assert(result@ =~= before + byte_encoding(byte));
        }
        i = i + 1;
    }
    assert(b.take(bytes.len() as int) =~= b);
    result
}

/// Build the search URL for the given query and filter.
pub fn build_search_url(query: &str, filter: &SearchFilter) -> (r: String)
    ensures
        r@ == search_url(query@, *filter),
{
    let encoded_query = urlencoding(query);
    let filter_param = match filter {
        SearchFilter::Top => "",
        SearchFilter::Latest => "&f=live",
        SearchFilter::People => "&f=user",
        SearchFilter::Photos => "&f=image",
        SearchFilter::Videos => "&f=video",
    };
    let mut url = String::from_str("https://twitter.com/search?q=");
    url.append(encoded_query.as_str());
    url.append(filter_param);
    url.append("&src=typed_query");
    url
}

/// Validate the search input.
pub fn validate_search_input(input: &TwitterSearchInput) -> (r: Result<(), TwitterError>)
    ensures
        outcome(r) == check_of(search_input_error(input.query@, input.count as nat)),
{
    if chars_all_whitespace(&chars_of(input.query.as_str())) {
        return Err(
            TwitterError::InvalidInput { message: String::from_str("Search query cannot be empty") },
        );
    }
    if input.count == 0 {
        return Err(
            TwitterError::InvalidInput { message: String::from_str("Count must be greater than 0") },
        );
    }
    if input.count > 100 {
        return Err(
            TwitterError::InvalidInput { message: String::from_str("Count cannot exceed 100") },
        );
    }
    Ok(())
}

/// Search for tweets at time `now_ms`.
///
/// Validates the input, then takes a token from the rate limiter, then checks
/// the session; a granted search answers with an empty page. Returns the answer
/// and the milliseconds to wait before giving it.
pub fn twitter_search(
    input: &TwitterSearchInput,
    session: &TwitterSession,
    rate_limiter: &mut RateLimiter,
    now_ms: u64,
) -> (r: (Result<TwitterSearchResult, TwitterError>, u64))
    ensures
        ({
            let g = admission_outcome(
                check_of(search_input_error(input.query@, input.count as nat)),
                old(rate_limiter)@,
                now_ms as nat,
                session_missing(*session),
            );
            &&& final(rate_limiter)@ == g.0
            &&& outcome(r.0) == g.1
            &&& r.1 as nat == g.2
            &&& (r.0 matches Ok(res) ==> res.success && res.tweets@.len() == 0
                && res.next_cursor is None && res.error is None)
        }),
{
    let (admitted, delay) = admit_request(validate_search_input(input), session, rate_limiter, now_ms);
    match admitted {
        Err(e) => (Err(e), delay),
        Ok(()) => {
            let _search_url = build_search_url(input.query.as_str(), &input.filter);
            (
                Ok(
                    TwitterSearchResult {
                        success: true,
                        tweets: Vec::new(),
                        next_cursor: None,
                        error: None,
                    },
                ),
                delay,
            )
        },
    }
}

/// Create a rate limiter configured for search.
pub fn create_search_rate_limiter(now_ms: u64) -> (r: RateLimiter)
    ensures
        r@ == (LimiterState {
            config: RateLimitConfig { max_requests: 50, window_seconds: 900, min_delay_ms: 1000 },
            tokens: 50,
            last_request_ms: now_ms as nat,
            window_start_ms: now_ms as nat,
        }),
{
    RateLimiter::new(RateLimitConfig::for_search(), now_ms)
}

/// Parse a tweet from a raw DOM element. The element's markup is not read:
/// no element yields a tweet.
pub fn parse_tweet_from_dom(_element: &str) -> (r: Option<Tweet>)
    ensures
        r is None,
{
    None
}

} // verus!
