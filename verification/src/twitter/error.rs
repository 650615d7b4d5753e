//! Errors of the Twitter tools.
use crate::text::{decimal, push_decimal};
use vstd::prelude::*;
use vstd::string::*;

verus! {

/// Errors that can occur during Twitter operations.
#[derive(Debug, Clone)]
pub enum TwitterError {
    /// Tweet text exceeds maximum length
    TweetTooLong { max: usize, actual: usize },
    /// No valid session available
    NoSession,
    /// Session has expired
    SessionExpired,
    /// Rate limit exceeded
    RateLimited { wait_seconds: u64 },
    /// Tweet not found
    TweetNotFound { tweet_id: String },
    /// User not found
    UserNotFound { username: String },
    /// Network error
    NetworkError { message: String },
    /// Authentication error
    AuthError { message: String },
    /// Invalid input
    InvalidInput { message: String },
    /// Unknown error
    Unknown { message: String },
}

/// The mathematical value of a [`TwitterError`]: its variant and the text of its fields.
pub enum TwitterErrorView {
    TweetTooLong { max: nat, actual: nat },
    NoSession,
    SessionExpired,
    RateLimited { wait_seconds: nat },
    TweetNotFound { tweet_id: Seq<char> },
    UserNotFound { username: Seq<char> },
    NetworkError { message: Seq<char> },
    AuthError { message: Seq<char> },
    InvalidInput { message: Seq<char> },
    Unknown { message: Seq<char> },
}

impl View for TwitterError {
    type V = TwitterErrorView;

    open spec fn view(&self) -> TwitterErrorView {
        match self {
            TwitterError::TweetTooLong { max, actual } => TwitterErrorView::TweetTooLong {
                max: *max as nat,
                actual: *actual as nat,
            },
            TwitterError::NoSession => TwitterErrorView::NoSession,
            TwitterError::SessionExpired => TwitterErrorView::SessionExpired,
            TwitterError::RateLimited { wait_seconds } => TwitterErrorView::RateLimited {
                wait_seconds: *wait_seconds as nat,
            },
            TwitterError::TweetNotFound { tweet_id } => TwitterErrorView::TweetNotFound {
                tweet_id: tweet_id@,
            },
            TwitterError::UserNotFound { username } => TwitterErrorView::UserNotFound {
                username: username@,
            },
            TwitterError::NetworkError { message } => TwitterErrorView::NetworkError {
                message: message@,
            },
            TwitterError::AuthError { message } => TwitterErrorView::AuthError {
                message: message@,
            },
            TwitterError::InvalidInput { message } => TwitterErrorView::InvalidInput {
                message: message@,
            },
            TwitterError::Unknown { message } => TwitterErrorView::Unknown { message: message@ },
        }
    }
}

/// The outcome of a fallible step, with the value dropped and the error viewed.
pub open spec fn outcome<T>(r: Result<T, TwitterError>) -> Result<(), TwitterErrorView> {
    match r {
        Ok(_) => Ok(()),
        Err(e) => Err(e@),
    }
}

/// The human-readable text of an error.
pub open spec fn error_text(e: TwitterErrorView) -> Seq<char> {
    match e {
        TwitterErrorView::TweetTooLong { max, actual } => "Tweet exceeds maximum length of "@
            + decimal(max) + " characters (got "@ + decimal(actual) + ")"@,
        TwitterErrorView::NoSession => "No valid Twitter session. Please log in first."@,
        TwitterErrorView::SessionExpired => "Twitter session has expired. Please log in again."@,
        TwitterErrorView::RateLimited { wait_seconds } => "Rate limit exceeded. Please wait "@
            + decimal(wait_seconds) + " seconds."@,
        TwitterErrorView::TweetNotFound { tweet_id } => "Tweet not found: "@ + tweet_id,
        TwitterErrorView::UserNotFound { username } => "User not found: "@ + username,
        TwitterErrorView::NetworkError { message } => "Network error: "@ + message,
        TwitterErrorView::AuthError { message } => "Authentication error: "@ + message,
        TwitterErrorView::InvalidInput { message } => "Invalid input: "@ + message,
        TwitterErrorView::Unknown { message } => "Unknown error: "@ + message,
    }
}

impl TwitterError {
    /// Check if the error is recoverable (can be retried).
    pub fn is_recoverable(&self) -> (r: bool)
        ensures
            r == (self is RateLimited || self is NetworkError),
    {
        match self {
            TwitterError::RateLimited { .. } | TwitterError::NetworkError { .. } => true,
            _ => false,
        }
    }

    /// Get the suggested wait time before retry (in seconds).
    pub fn retry_after(&self) -> (r: Option<u64>)
        ensures
            r == (match self {
                TwitterError::RateLimited { wait_seconds } => Some(*wait_seconds),
                TwitterError::NetworkError { .. } => Some(5u64),
                _ => None,
            }),
    {
        match self {
            TwitterError::RateLimited { wait_seconds } => Some(*wait_seconds),
            TwitterError::NetworkError { .. } => Some(5),
            _ => None,
        }
    }

    /// The human-readable text of the error.
    pub fn to_string(&self) -> (r: String)
        ensures
            r@ == error_text(self@),
    {
        match self {
            TwitterError::TweetTooLong { max, actual } => {
                let mut s = String::from_str("Tweet exceeds maximum length of ");
                push_decimal(&mut s, *max as u64);
                s.append(" characters (got ");
                push_decimal(&mut s, *actual as u64);
                s.append(")");
                s
            },
            TwitterError::NoSession => String::from_str(
                "No valid Twitter session. Please log in first.",
            ),
            TwitterError::SessionExpired => String::from_str(
                "Twitter session has expired. Please log in again.",
            ),
            TwitterError::RateLimited { wait_seconds } => {
                let mut s = String::from_str("Rate limit exceeded. Please wait ");
                push_decimal(&mut s, *wait_seconds);
                s.append(" seconds.");
                s
            },
            TwitterError::TweetNotFound { tweet_id } => String::from_str("Tweet not found: ").concat(
                tweet_id.as_str(),
            ),
            TwitterError::UserNotFound { username } => String::from_str("User not found: ").concat(
                username.as_str(),
            ),
            TwitterError::NetworkError { message } => String::from_str("Network error: ").concat(
                message.as_str(),
            ),
            TwitterError::AuthError { message } => String::from_str(
                "Authentication error: ",
            ).concat(message.as_str()),
            TwitterError::InvalidInput { message } => String::from_str("Invalid input: ").concat(
                message.as_str(),
            ),
            TwitterError::Unknown { message } => String::from_str("Unknown error: ").concat(
                message.as_str(),
            ),
        }
    }
}

} // verus!
