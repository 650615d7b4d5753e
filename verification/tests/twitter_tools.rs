use synmem::twitter::error::TwitterError;
use synmem::twitter::post::{is_valid_media_url, twitter_post, validate_post_input};
use synmem::twitter::rate_limiter::{RateLimitConfig, RateLimiter};
use synmem::twitter::read_thread::{extract_id_from_url, extract_tweet_id, twitter_read_thread};
use synmem::twitter::search::{build_search_url, twitter_search, urlencoding};
use synmem::twitter::timeline::{build_timeline_url, is_valid_username, twitter_get_timeline};
use synmem::twitter::types::{
    SearchFilter, TimelineType, TwitterGetTimelineInput, TwitterPostInput, TwitterReadThreadInput,
    TwitterSearchInput, TwitterSession, TWEET_MAX_LENGTH,
};

const T0: u64 = 1_000_000;

fn mock_session() -> TwitterSession {
    TwitterSession {
        cookies: "auth_token=mock_token; ct0=mock_csrf".to_string(),
        csrf_token: "mock_csrf_token".to_string(),
        bearer_token: "mock_bearer".to_string(),
        user_id: Some("123456789".to_string()),
    }
}

fn invalid_session() -> TwitterSession {
    TwitterSession {
        cookies: String::new(),
        csrf_token: String::new(),
        bearer_token: String::new(),
        user_id: None,
    }
}

// ----- post -----

#[test]
fn test_post_valid_tweet() {
    let input = TwitterPostInput {
        text: "Hello, Twitter!".to_string(),
        media_urls: vec![],
        reply_to: None,
    };
    let session = mock_session();
    let mut rate_limiter = RateLimiter::new(RateLimitConfig::for_post(), T0);
    let (result, _delay) = twitter_post(&input, &session, &mut rate_limiter, T0);
    assert!(result.is_ok());
    let result = result.unwrap();
    assert!(result.success);
    assert!(result.tweet_id.is_some());
}

#[test]
fn test_post_tweet_too_long() {
    let input = TwitterPostInput { text: "a".repeat(281), media_urls: vec![], reply_to: None };
    let session = mock_session();
    let mut rate_limiter = RateLimiter::new(RateLimitConfig::for_post(), T0);
    let (result, _) = twitter_post(&input, &session, &mut rate_limiter, T0);
    match result.unwrap_err() {
        TwitterError::TweetTooLong { max, actual } => {
            assert_eq!(max, 280);
            assert_eq!(actual, 281);
        }
        _ => panic!("Expected TweetTooLong error"),
    }
}

#[test]
fn test_post_empty_tweet_no_media() {
    let input = TwitterPostInput { text: "   ".to_string(), media_urls: vec![], reply_to: None };
    let session = mock_session();
    let mut rate_limiter = RateLimiter::new(RateLimitConfig::for_post(), T0);
    let (result, _) = twitter_post(&input, &session, &mut rate_limiter, T0);
    match result.unwrap_err() {
        TwitterError::InvalidInput { message } => assert!(message.contains("text or media")),
        _ => panic!("Expected InvalidInput error"),
    }
}

#[test]
fn test_post_no_session() {
    let input = TwitterPostInput { text: "Hello!".to_string(), media_urls: vec![], reply_to: None };
    let session = invalid_session();
    let mut rate_limiter = RateLimiter::new(RateLimitConfig::for_post(), T0);
    let (result, _) = twitter_post(&input, &session, &mut rate_limiter, T0);
    assert!(matches!(result.unwrap_err(), TwitterError::NoSession));
}

#[test]
fn test_post_with_media() {
    let input = TwitterPostInput {
        text: "Check out this image!".to_string(),
        media_urls: vec!["https://example.com/image.jpg".to_string()],
        reply_to: None,
    };
    let session = mock_session();
    let mut rate_limiter = RateLimiter::new(RateLimitConfig::for_post(), T0);
    let (result, _) = twitter_post(&input, &session, &mut rate_limiter, T0);
    assert!(result.is_ok());
}

#[test]
fn test_post_reply() {
    let input = TwitterPostInput {
        text: "This is a reply".to_string(),
        media_urls: vec![],
        reply_to: Some("123456789".to_string()),
    };
    let session = mock_session();
    let mut rate_limiter = RateLimiter::new(RateLimitConfig::for_post(), T0);
    let (result, _) = twitter_post(&input, &session, &mut rate_limiter, T0);
    assert!(result.is_ok());
}

#[test]
fn test_post_max_length_tweet() {
    let input = TwitterPostInput { text: "a".repeat(280), media_urls: vec![], reply_to: None };
    let session = mock_session();
    let mut rate_limiter = RateLimiter::new(RateLimitConfig::for_post(), T0);
    let (result, _) = twitter_post(&input, &session, &mut rate_limiter, T0);
    assert!(result.is_ok());
}

#[test]
fn post_length_counts_characters_not_bytes() {
    // 280 two-byte characters are within the limit.
    let input = TwitterPostInput { text: "é".repeat(280), media_urls: vec![], reply_to: None };
    assert!(validate_post_input(&input).is_ok());
}

#[test]
fn post_media_urls_are_checked() {
    assert!(is_valid_media_url("https://example.com/image.jpg"));
    assert!(is_valid_media_url("HTTPS://EXAMPLE.COM/A.PNG"));
    assert!(is_valid_media_url("data:image/png;base64,AAAA"));
    assert!(!is_valid_media_url("ftp://example.com/image.jpg"));
    let input = TwitterPostInput {
        text: "x".to_string(),
        media_urls: vec!["https://a.com/1.png".to_string(), "ftp://b.com/2.png".to_string()],
        reply_to: None,
    };
    match validate_post_input(&input).unwrap_err() {
        TwitterError::InvalidInput { message } => assert!(message.contains("ftp://b.com/2.png")),
        other => panic!("unexpected {:?}", other),
    }
}

#[test]
fn post_refused_by_input_takes_no_token() {
    let input = TwitterPostInput { text: "a".repeat(281), media_urls: vec![], reply_to: None };
    let mut limiter = RateLimiter::new(RateLimitConfig::for_post(), T0);
    let _ = twitter_post(&input, &mock_session(), &mut limiter, T0);
    assert_eq!(limiter.remaining_tokens(), 25);
}

// ----- read thread -----

#[test]
fn test_read_thread_by_url() {
    let input = TwitterReadThreadInput {
        tweet_url_or_id: "https://twitter.com/user/status/123456789".to_string(),
        max_tweets: 50,
    };
    let mut rate_limiter = RateLimiter::new(RateLimitConfig::for_read(), T0);
    let (result, _) = twitter_read_thread(&input, &mock_session(), &mut rate_limiter, T0);
    assert!(result.unwrap().success);
}

#[test]
fn test_read_thread_by_id() {
    let input =
        TwitterReadThreadInput { tweet_url_or_id: "123456789".to_string(), max_tweets: 50 };
    let mut rate_limiter = RateLimiter::new(RateLimitConfig::for_read(), T0);
    let (result, _) = twitter_read_thread(&input, &mock_session(), &mut rate_limiter, T0);
    assert!(result.is_ok());
}

#[test]
fn test_read_thread_x_url() {
    let input = TwitterReadThreadInput {
        tweet_url_or_id: "https://x.com/user/status/123456789".to_string(),
        max_tweets: 50,
    };
    let mut rate_limiter = RateLimiter::new(RateLimitConfig::for_read(), T0);
    let (result, _) = twitter_read_thread(&input, &mock_session(), &mut rate_limiter, T0);
    assert!(result.is_ok());
}

#[test]
fn test_read_thread_invalid_url() {
    let input = TwitterReadThreadInput {
        tweet_url_or_id: "https://example.com/not-twitter".to_string(),
        max_tweets: 50,
    };
    let mut rate_limiter = RateLimiter::new(RateLimitConfig::for_read(), T0);
    let (result, _) = twitter_read_thread(&input, &mock_session(), &mut rate_limiter, T0);
    assert!(matches!(result.unwrap_err(), TwitterError::InvalidInput { .. }));
}

#[test]
fn test_read_thread_no_session() {
    let input =
        TwitterReadThreadInput { tweet_url_or_id: "123456789".to_string(), max_tweets: 50 };
    let mut rate_limiter = RateLimiter::new(RateLimitConfig::for_read(), T0);
    let (result, _) = twitter_read_thread(&input, &invalid_session(), &mut rate_limiter, T0);
    assert!(matches!(result.unwrap_err(), TwitterError::NoSession));
}

#[test]
fn tweet_ids_are_extracted() {
    assert_eq!(extract_tweet_id("123456789").unwrap(), "123456789");
    assert_eq!(
        extract_tweet_id("https://twitter.com/user/status/123456789").unwrap(),
        "123456789"
    );
    assert_eq!(extract_tweet_id("https://x.com/user/status/42?s=20").unwrap(), "42");
    assert_eq!(extract_id_from_url("https://TWITTER.com/u/status/7/photo/1"), Some("7".to_string()));
    assert_eq!(extract_id_from_url("https://twitter.com/u/likes"), None);
    assert!(extract_tweet_id("12a").is_err());
    // The empty text is no id.
    assert!(matches!(extract_tweet_id(""), Err(TwitterError::InvalidInput { .. })));
    // Only Twitter's and X's hosts are read.
    assert_eq!(extract_id_from_url("https://fox.com/u/status/1"), None);
    assert_eq!(extract_id_from_url("https://x.com.evil.org/u/status/1"), None);
    assert_eq!(extract_id_from_url("https://example.com/x.com/status/1"), None);
    assert_eq!(extract_id_from_url("https://mobile.twitter.com/u/status/9"), Some("9".to_string()));
    assert_eq!(extract_id_from_url("twitter.com/u/status/8"), Some("8".to_string()));
}

// ----- search -----

#[test]
fn test_search_valid_query() {
    let input = TwitterSearchInput {
        query: "rust programming".to_string(),
        count: 20,
        filter: SearchFilter::Top,
    };
    let mut rate_limiter = RateLimiter::new(RateLimitConfig::for_search(), T0);
    let (result, _) = twitter_search(&input, &mock_session(), &mut rate_limiter, T0);
    assert!(result.unwrap().success);
}

#[test]
fn test_search_empty_query() {
    let input =
        TwitterSearchInput { query: "".to_string(), count: 20, filter: SearchFilter::Top };
    let mut rate_limiter = RateLimiter::new(RateLimitConfig::for_search(), T0);
    let (result, _) = twitter_search(&input, &mock_session(), &mut rate_limiter, T0);
    assert!(matches!(result.unwrap_err(), TwitterError::InvalidInput { .. }));
}

#[test]
fn test_search_zero_count() {
    let input =
        TwitterSearchInput { query: "test".to_string(), count: 0, filter: SearchFilter::Top };
    let mut rate_limiter = RateLimiter::new(RateLimitConfig::for_search(), T0);
    let (result, _) = twitter_search(&input, &mock_session(), &mut rate_limiter, T0);
    assert!(result.is_err());
}

#[test]
fn test_search_count_too_high() {
    let input =
        TwitterSearchInput { query: "test".to_string(), count: 101, filter: SearchFilter::Top };
    let mut rate_limiter = RateLimiter::new(RateLimitConfig::for_search(), T0);
    let (result, _) = twitter_search(&input, &mock_session(), &mut rate_limiter, T0);
    assert!(result.is_err());
}

#[test]
fn test_search_different_filters() {
    let session = mock_session();
    let mut rate_limiter = RateLimiter::new(RateLimitConfig::for_search(), T0);
    let mut now = T0;
    for filter in [
        SearchFilter::Top,
        SearchFilter::Latest,
        SearchFilter::People,
        SearchFilter::Photos,
        SearchFilter::Videos,
    ] {
        let input = TwitterSearchInput { query: "test".to_string(), count: 10, filter };
        let (result, delay) = twitter_search(&input, &session, &mut rate_limiter, now);
        assert!(result.is_ok());
        now += delay;
    }
}

#[test]
fn test_search_no_session() {
    let input =
        TwitterSearchInput { query: "test".to_string(), count: 20, filter: SearchFilter::Top };
    let mut rate_limiter = RateLimiter::new(RateLimitConfig::for_search(), T0);
    let (result, _) = twitter_search(&input, &invalid_session(), &mut rate_limiter, T0);
    assert!(matches!(result.unwrap_err(), TwitterError::NoSession));
}

#[test]
fn search_urls_are_percent_encoded() {
    assert_eq!(urlencoding("rust programming"), "rust%20programming");
    assert_eq!(urlencoding("a-b_c.d~e"), "a-b_c.d~e");
    assert_eq!(urlencoding("#é&"), "%23%C3%A9%26");
    assert_eq!(
        build_search_url("rust lang", &SearchFilter::Top),
        "https://twitter.com/search?q=rust%20lang&src=typed_query"
    );
    assert_eq!(
        build_search_url("rust", &SearchFilter::Latest),
        "https://twitter.com/search?q=rust&f=live&src=typed_query"
    );
    assert_eq!(
        build_search_url("rust", &SearchFilter::People),
        "https://twitter.com/search?q=rust&f=user&src=typed_query"
    );
    assert_eq!(
        build_search_url("rust", &SearchFilter::Photos),
        "https://twitter.com/search?q=rust&f=image&src=typed_query"
    );
    assert_eq!(
        build_search_url("rust", &SearchFilter::Videos),
        "https://twitter.com/search?q=rust&f=video&src=typed_query"
    );
}

// ----- timeline -----

fn timeline_input(t: TimelineType, username: Option<&str>, count: usize) -> TwitterGetTimelineInput {
    TwitterGetTimelineInput {
        timeline_type: t,
        username: username.map(|u| u.to_string()),
        count,
        cursor: None,
    }
}

#[test]
fn test_get_home_timeline() {
    let input = timeline_input(TimelineType::Home, None, 20);
    let mut rate_limiter = RateLimiter::new(RateLimitConfig::for_read(), T0);
    let (result, _) = twitter_get_timeline(&input, &mock_session(), &mut rate_limiter, T0);
    assert!(result.unwrap().success);
}

#[test]
fn test_get_following_timeline() {
    let input = timeline_input(TimelineType::Following, None, 20);
    let mut rate_limiter = RateLimiter::new(RateLimitConfig::for_read(), T0);
    let (result, _) = twitter_get_timeline(&input, &mock_session(), &mut rate_limiter, T0);
    assert!(result.is_ok());
}

#[test]
fn test_get_user_timeline() {
    let input = timeline_input(TimelineType::User, Some("testuser"), 20);
    let mut rate_limiter = RateLimiter::new(RateLimitConfig::for_read(), T0);
    let (result, _) = twitter_get_timeline(&input, &mock_session(), &mut rate_limiter, T0);
    assert!(result.is_ok());
}

#[test]
fn test_get_user_timeline_no_username() {
    let input = timeline_input(TimelineType::User, None, 20);
    let mut rate_limiter = RateLimiter::new(RateLimitConfig::for_read(), T0);
    let (result, _) = twitter_get_timeline(&input, &mock_session(), &mut rate_limiter, T0);
    assert!(matches!(result.unwrap_err(), TwitterError::InvalidInput { .. }));
}

#[test]
fn test_get_timeline_invalid_username() {
    let input = timeline_input(TimelineType::User, Some("invalid username with spaces"), 20);
    let mut rate_limiter = RateLimiter::new(RateLimitConfig::for_read(), T0);
    let (result, _) = twitter_get_timeline(&input, &mock_session(), &mut rate_limiter, T0);
    assert!(result.is_err());
}

#[test]
fn test_get_timeline_zero_count() {
    let input = timeline_input(TimelineType::Home, None, 0);
    let mut rate_limiter = RateLimiter::new(RateLimitConfig::for_read(), T0);
    let (result, _) = twitter_get_timeline(&input, &mock_session(), &mut rate_limiter, T0);
    assert!(result.is_err());
}

#[test]
fn test_get_timeline_no_session() {
    let input = timeline_input(TimelineType::Home, None, 20);
    let mut rate_limiter = RateLimiter::new(RateLimitConfig::for_read(), T0);
    let (result, _) = twitter_get_timeline(&input, &invalid_session(), &mut rate_limiter, T0);
    assert!(matches!(result.unwrap_err(), TwitterError::NoSession));
}

#[test]
fn timeline_urls_and_usernames() {
    assert!(is_valid_username("test_user1"));
    assert!(is_valid_username("abcdefghijklmno"));
    assert!(!is_valid_username("abcdefghijklmnop"));
    assert!(!is_valid_username(""));
    assert!(!is_valid_username("bad name"));
    assert_eq!(
        build_timeline_url(&timeline_input(TimelineType::Home, None, 20)).unwrap(),
        "https://twitter.com/home"
    );
    assert_eq!(
        build_timeline_url(&timeline_input(TimelineType::Following, None, 20)).unwrap(),
        "https://twitter.com/home?f=following"
    );
    assert_eq!(
        build_timeline_url(&timeline_input(TimelineType::User, Some("rustlang"), 20)).unwrap(),
        "https://twitter.com/rustlang"
    );
}

// ----- rate limiter -----

#[test]
fn test_rate_limiter_acquire() {
    let mut limiter = RateLimiter::new(
        RateLimitConfig { max_requests: 5, window_seconds: 60, min_delay_ms: 0 },
        T0,
    );
    for _ in 0..5 {
        assert!(limiter.acquire(T0).is_ok());
    }
}

#[test]
fn test_rate_limiter_exhausted() {
    let mut limiter = RateLimiter::new(
        RateLimitConfig { max_requests: 2, window_seconds: 60, min_delay_ms: 0 },
        T0,
    );
    assert!(limiter.acquire(T0).is_ok());
    assert!(limiter.acquire(T0).is_ok());
    let result = limiter.acquire(T0);
    assert!(matches!(result.unwrap_err(), TwitterError::RateLimited { .. }));
}

#[test]
fn test_rate_limiter_remaining_tokens() {
    let limiter = RateLimiter::new(
        RateLimitConfig { max_requests: 10, window_seconds: 60, min_delay_ms: 0 },
        T0,
    );
    assert_eq!(limiter.remaining_tokens(), 10);
}

#[test]
fn test_rate_limiter_can_proceed() {
    let limiter = RateLimiter::new(
        RateLimitConfig { max_requests: 10, window_seconds: 60, min_delay_ms: 0 },
        T0,
    );
    assert!(limiter.can_proceed());
}

#[test]
fn test_rate_limit_configs() {
    let post_config = RateLimitConfig::for_post();
    let read_config = RateLimitConfig::for_read();
    let search_config = RateLimitConfig::for_search();
    assert!(post_config.max_requests < read_config.max_requests);
    assert!(post_config.min_delay_ms > read_config.min_delay_ms);
    assert!(search_config.max_requests <= read_config.max_requests);
    assert!(search_config.max_requests >= post_config.max_requests);
}

#[test]
fn rate_limiter_window_and_pacing() {
    let mut limiter = RateLimiter::new(
        RateLimitConfig { max_requests: 2, window_seconds: 60, min_delay_ms: 1000 },
        T0,
    );
    // The first request comes right after creation: it waits the full spacing.
    assert_eq!(limiter.acquire(T0).unwrap(), 1000);
    // The next one, 300 ms after that slot, waits 700 ms.
    assert_eq!(limiter.acquire(T0 + 1300).unwrap(), 700);
    // The bucket is empty: refused with the rest of the window, 58 s.
    match limiter.acquire(T0 + 2000).unwrap_err() {
        TwitterError::RateLimited { wait_seconds } => assert_eq!(wait_seconds, 58),
        other => panic!("unexpected {:?}", other),
    }
    // A refusal does not change the state: asking again gives the same answer.
    assert!(limiter.acquire(T0 + 2000).is_err());
    assert_eq!(limiter.remaining_tokens(), 0);
    assert!(!limiter.can_proceed());
    // Once the window is over the bucket is full again.
    assert_eq!(limiter.acquire(T0 + 60_000).unwrap(), 0);
    assert_eq!(limiter.remaining_tokens(), 1);
    assert_eq!(*limiter.config(), RateLimitConfig { max_requests: 2, window_seconds: 60, min_delay_ms: 1000 });
}

#[test]
fn rate_limiter_default_config() {
    let limiter = RateLimiter::default_limiter(T0);
    assert_eq!(limiter.remaining_tokens(), 50);
    assert_eq!(
        RateLimitConfig::default(),
        RateLimitConfig { max_requests: 50, window_seconds: 900, min_delay_ms: 1000 }
    );
}

// ----- errors -----

#[test]
fn test_error_is_recoverable() {
    assert!(TwitterError::RateLimited { wait_seconds: 60 }.is_recoverable());
    assert!(TwitterError::NetworkError { message: "timeout".to_string() }.is_recoverable());
    assert!(!TwitterError::NoSession.is_recoverable());
    assert!(!TwitterError::InvalidInput { message: "test".to_string() }.is_recoverable());
}

#[test]
fn test_error_retry_after() {
    assert_eq!(TwitterError::RateLimited { wait_seconds: 60 }.retry_after(), Some(60));
    assert_eq!(
        TwitterError::NetworkError { message: "timeout".to_string() }.retry_after(),
        Some(5)
    );
    assert_eq!(TwitterError::NoSession.retry_after(), None);
}

#[test]
fn test_error_display() {
    let error = TwitterError::TweetTooLong { max: 280, actual: 300 };
    assert!(error.to_string().contains("280"));
    assert!(error.to_string().contains("300"));
    let error = TwitterError::NoSession;
    assert!(error.to_string().contains("session"));
}

#[test]
fn error_messages_in_full() {
    assert_eq!(
        TwitterError::TweetTooLong { max: 280, actual: 300 }.to_string(),
        "Tweet exceeds maximum length of 280 characters (got 300)"
    );
    assert_eq!(
        TwitterError::RateLimited { wait_seconds: 60 }.to_string(),
        "Rate limit exceeded. Please wait 60 seconds."
    );
}

// ----- types -----

#[test]
fn test_tweet_max_length() {
    assert_eq!(TWEET_MAX_LENGTH, 280);
}

#[test]
fn test_search_filter_default() {
    let filter: SearchFilter = Default::default();
    assert!(matches!(filter, SearchFilter::Top));
}

#[test]
fn test_timeline_type_default() {
    let timeline_type: TimelineType = Default::default();
    assert!(matches!(timeline_type, TimelineType::Home));
}

#[test]
fn test_twitter_session_debug_redacts_sensitive_data() {
    let session = TwitterSession {
        cookies: "super_secret_cookie".to_string(),
        csrf_token: "secret_csrf_token".to_string(),
        bearer_token: "secret_bearer_token".to_string(),
        user_id: Some("123456".to_string()),
    };
    let debug_output = session.debug_string();
    assert!(!debug_output.contains("super_secret_cookie"));
    assert!(!debug_output.contains("secret_csrf_token"));
    assert!(!debug_output.contains("secret_bearer_token"));
    assert!(debug_output.contains("123456"));
    assert!(debug_output.contains("[REDACTED]"));
}

#[test]
fn session_debug_rendering_in_full() {
    let session = TwitterSession {
        cookies: "c".to_string(),
        csrf_token: "t".to_string(),
        bearer_token: "b".to_string(),
        user_id: Some("12\"3".to_string()),
    };
    assert_eq!(
        session.debug_string(),
        "TwitterSession { cookies: \"[REDACTED]\", csrf_token: \"[REDACTED]\", bearer_token: \"[REDACTED]\", user_id: Some(\"12\\\"3\") }"
    );
    let anonymous = TwitterSession { user_id: None, ..session };
    assert!(anonymous.debug_string().ends_with("user_id: None }"));
}

#[test]
fn exactly_the_first_requests_of_a_window_are_granted() {
    let config = RateLimitConfig { max_requests: 3, window_seconds: 60, min_delay_ms: 100 };
    let mut limiter = RateLimiter::new(config, T0);
    let mut now = T0;
    let mut granted = 0;
    for k in 0..6u64 {
        match limiter.acquire(now) {
            Ok(delay) => {
                assert!(k < 3);
                granted += 1;
                now += delay;
            }
            Err(TwitterError::RateLimited { wait_seconds }) => {
                assert!(k >= 3);
                assert!(wait_seconds <= 60);
            }
            Err(other) => panic!("unexpected {:?}", other),
        }
        assert_eq!(limiter.remaining_tokens(), 3 - granted);
        now += 10;
    }
    assert_eq!(granted, 3);
}
