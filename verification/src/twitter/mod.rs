//! Twitter/X automation: input validation, URL construction, rate limiting and
//! the decision steps of the post, thread, search and timeline tools.
pub mod error;
pub mod post;
pub mod rate_limiter;
pub mod read_thread;
pub mod search;
pub mod session;
pub mod timeline;
pub mod types;

pub use error::{TwitterError, TwitterErrorView};
pub use post::{create_post_rate_limiter, twitter_post};
pub use rate_limiter::{RateLimitConfig, RateLimiter};
pub use read_thread::{create_read_rate_limiter, twitter_read_thread};
pub use search::{create_search_rate_limiter, twitter_search};
pub use timeline::{create_timeline_rate_limiter, twitter_get_timeline};
pub use types::{
    default_max_tweets, default_search_count, default_timeline_count, SearchFilter,
    TimelineType, Tweet, TweetMedia, TwitterGetTimelineInput, TwitterGetTimelineResult,
    TwitterPostInput, TwitterPostResult, TwitterReadThreadInput, TwitterReadThreadResult,
    TwitterSearchInput, TwitterSearchResult, TwitterSession, TWEET_MAX_LENGTH,
};
