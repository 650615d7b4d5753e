//! Twitter types and data structures.
use vstd::prelude::*;
use vstd::string::*;

verus! {

/// Maximum length of a tweet, in characters.
pub const TWEET_MAX_LENGTH: usize = 280;

/// Input parameters for posting a tweet.
#[derive(Debug, Clone)]
pub struct TwitterPostInput {
    /// The text content of the tweet (max 280 characters)
    pub text: String,
    /// Optional media URLs to attach
    pub media_urls: Vec<String>,
    /// Optional tweet ID to reply to
    pub reply_to: Option<String>,
}

/// Result of posting a tweet.
#[derive(Debug, Clone)]
pub struct TwitterPostResult {
    /// Whether the post was successful
    pub success: bool,
    /// The ID of the created tweet
    pub tweet_id: Option<String>,
    /// URL of the created tweet
    pub tweet_url: Option<String>,
    /// Error message if failed
    pub error: Option<String>,
}

/// Input parameters for reading a thread.
#[derive(Debug, Clone)]
pub struct TwitterReadThreadInput {
    /// The URL or ID of the tweet to read the thread from
    pub tweet_url_or_id: String,
    /// Maximum number of tweets to retrieve
    pub max_tweets: usize,
}

/// The number of tweets a thread read returns when none is given.
pub fn default_max_tweets() -> (r: usize)
    ensures
        r == 100,
{
    100
}

/// A single tweet in a thread.
#[derive(Debug, Clone)]
pub struct Tweet {
    /// Tweet ID
    pub id: String,
    /// Tweet text content
    pub text: String,
    /// Author username
    pub author: String,
    /// Author display name
    pub author_display_name: String,
    /// Timestamp of the tweet
    pub timestamp: String,
    /// Number of likes
    pub likes: u64,
    /// Number of retweets
    pub retweets: u64,
    /// Number of replies
    pub replies: u64,
    /// Media attachments
    pub media: Vec<TweetMedia>,
}

/// Media attachment on a tweet.
#[derive(Debug, Clone)]
pub struct TweetMedia {
    /// Type of media (image, video, gif)
    pub media_type: String,
    /// URL of the media
    pub url: String,
    /// Alt text if available
    pub alt_text: Option<String>,
}

/// Result of reading a thread.
#[derive(Debug, Clone)]
pub struct TwitterReadThreadResult {
    /// Whether the read was successful
    pub success: bool,
    /// The tweets in the thread
    pub tweets: Vec<Tweet>,
    /// Total number of tweets found
    pub total_count: usize,
    /// Error message if failed
    pub error: Option<String>,
}

/// Input parameters for searching tweets.
#[derive(Debug, Clone)]
pub struct TwitterSearchInput {
    /// Search query
    pub query: String,
    /// Maximum number of results
    pub count: usize,
    /// Filter by: latest, top, people, photos, videos
    pub filter: SearchFilter,
}

/// The number of search results returned when none is given.
pub fn default_search_count() -> (r: usize)
    ensures
        r == 20,
{
    20
}

/// Search result filter type.
#[derive(Debug, Clone, Copy, PartialEq, Eq, Structural)]
pub enum SearchFilter {
    /// Top tweets (default)
    Top,
    /// Latest tweets
    Latest,
    /// People matching query
    People,
    /// Tweets with photos
    Photos,
    /// Tweets with videos
    Videos,
}

impl Default for SearchFilter {
    fn default() -> (r: Self)
        ensures
            r == SearchFilter::Top,
    {
        SearchFilter::Top
    }
}

/// Result of searching tweets.
#[derive(Debug, Clone)]
pub struct TwitterSearchResult {
    /// Whether the search was successful
    pub success: bool,
    /// The tweets matching the query
    pub tweets: Vec<Tweet>,
    /// Cursor for pagination
    pub next_cursor: Option<String>,
    /// Error message if failed
    pub error: Option<String>,
}

/// Input parameters for getting a timeline.
#[derive(Debug, Clone)]
pub struct TwitterGetTimelineInput {
    /// Type of timeline to retrieve
    pub timeline_type: TimelineType,
    /// Username for user timeline (required if timeline_type is User)
    pub username: Option<String>,
    /// Maximum number of tweets to retrieve
    pub count: usize,
    /// Cursor for pagination
    pub cursor: Option<String>,
}

/// The number of timeline tweets returned when none is given.
pub fn default_timeline_count() -> (r: usize)
    ensures
        r == 20,
{
    20
}

/// Type of timeline to retrieve.
#[derive(Debug, Clone, Copy, PartialEq, Eq, Structural)]
pub enum TimelineType {
    /// Home timeline (for you)
    Home,
    /// User's own timeline
    User,
    /// Following timeline
    Following,
}

impl Default for TimelineType {
    fn default() -> (r: Self)
        ensures
            r == TimelineType::Home,
    {
        TimelineType::Home
    }
}

/// Result of getting a timeline.
#[derive(Debug, Clone)]
pub struct TwitterGetTimelineResult {
    /// Whether the retrieval was successful
    pub success: bool,
    /// The tweets in the timeline
    pub tweets: Vec<Tweet>,
    /// Cursor for next page
    pub next_cursor: Option<String>,
    /// Error message if failed
    pub error: Option<String>,
}

/// Twitter session information.
///
/// Holds authentication data; [`TwitterSession::debug_string`] renders it with
/// the cookies and tokens replaced by `[REDACTED]`.
#[derive(Clone)]
pub struct TwitterSession {
    /// Session cookies
    pub cookies: String,
    /// CSRF token
    pub csrf_token: String,
    /// Bearer token
    pub bearer_token: String,
    /// Authenticated user ID
    pub user_id: Option<String>,
}

/// What `Debug` writes for a string slice: the text quoted, with special
/// characters escaped.
pub uninterp spec fn str_debug(s: Seq<char>) -> Seq<char>;

/// `<str as Debug>::fmt`, through `format!("{:?}", s)`: the result is named
/// `str_debug` of the text; the escaping table is not restated.
#[verifier::external_body]
fn debug_str(s: &str) -> (r: String)
    ensures
        r@ == str_debug(s@),
{
    format!("{:?}", s)
}

/// The rendering of an optional user id, as `Debug` writes an `Option<String>`.
pub open spec fn user_id_debug(user_id: Option<Seq<char>>) -> Seq<char> {
    match user_id {
        Some(u) => "Some("@ + str_debug(u) + ")"@,
        None => "None"@,
    }
}

/// The debug rendering of a session, with the secrets redacted.
pub open spec fn session_debug(user_id: Option<Seq<char>>) -> Seq<char> {
    "TwitterSession { cookies: \"[REDACTED]\", csrf_token: \"[REDACTED]\", bearer_token: \"[REDACTED]\", user_id: "@
        + user_id_debug(user_id) + " }"@
}

impl TwitterSession {
    /// The view of the optional user id.
    pub open spec fn user_id_view(&self) -> Option<Seq<char>> {
        match self.user_id {
            Some(u) => Some(u@),
            None => None,
        }
    }

    /// Renders the session for debugging; the cookies, CSRF token and bearer
    /// token never appear, each is written as `"[REDACTED]"`.
    pub fn debug_string(&self) -> (r: String)
        ensures
            r@ == session_debug(self.user_id_view()),
    {
        let mut s = String::from_str(
            "TwitterSession { cookies: \"[REDACTED]\", csrf_token: \"[REDACTED]\", bearer_token: \"[REDACTED]\", user_id: ",
        );
        match &self.user_id {
            Some(u) => {
                s.append("Some(");
                let d = debug_str(u.as_str());
                s.append(d.as_str());
                s.append(")");
            },
            None => {
                s.append("None");
            },
        }
        s.append(" }");
        s
    }
}

/// A session's debug rendering depends on its user id alone, never on its
/// cookies or tokens, and shows the `"[REDACTED]"` placeholder in their place.
pub proof fn law_debug_redacts_secrets(a: TwitterSession, b: TwitterSession)
    requires
        a.user_id_view() == b.user_id_view(),
    ensures
        session_debug(a.user_id_view()) == session_debug(b.user_id_view()),
        crate::text::occurs_at(session_debug(a.user_id_view()), "\"[REDACTED]\""@, 26),
{
    let d = session_debug(a.user_id_view());
    reveal_strlit("\"[REDACTED]\"");
    reveal_strlit(
        "TwitterSession { cookies: \"[REDACTED]\", csrf_token: \"[REDACTED]\", bearer_token: \"[REDACTED]\", user_id: ",
    );
    assert(d.subrange(26, 38) =~= "\"[REDACTED]\""@);
}

} // verus!
