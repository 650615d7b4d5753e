//! Review and rating entities for the marketplace.
use crate::clock::{new_id, now_millis};
use vstd::prelude::*;
use vstd::string::*;

verus! {

/// Rating value (1-5 stars).
#[derive(Debug, Clone, Copy, PartialEq, Eq, Structural)]
pub struct Rating(u8);

impl View for Rating {
    type V = u8;

    closed spec fn view(&self) -> u8 {
        self.0
    }
}

/// The value `clamped` gives: `value` brought into `1..=5`.
pub open spec fn clamp_rating(value: u8) -> u8 {
    if value < 1 {
        1
    } else if value > 5 {
        5
    } else {
        value
    }
}

impl Rating {
    #[verifier::type_invariant]
    spec fn within_stars(self) -> bool {
        1 <= self.0 <= 5
    }

    /// Creates a new rating from a value between 1 and 5.
    pub fn new(value: u8) -> (r: Self)
        requires
            1 <= value <= 5,
        ensures
            r@ == value,
    {
        Rating(value)
    }

    /// Creates a rating, clamping the value between 1 and 5.
    pub fn clamped(value: u8) -> (r: Self)
        ensures
            r@ == clamp_rating(value),
    {
        let v = if value < 1 {
            1
        } else if value > 5 {
            5
        } else {
            value
        };
        Rating(v)
    }

    /// Returns the rating value, which is always between 1 and 5.
    pub fn value(&self) -> (r: u8)
        ensures
            r == self@,
            1 <= r <= 5,
    {
        proof {
            use_type_invariant(self);
        }
        self.0
    }

    /// Converts a value to a rating, refusing values outside `1..=5`.
    pub fn try_from(value: u8) -> (r: Result<Self, &'static str>)
        ensures
            r is Ok <==> 1 <= value <= 5,
            r matches Ok(rating) ==> rating@ == value,
            r matches Err(m) ==> m@ == "Rating must be between 1 and 5"@,
    {
        if 1 <= value && value <= 5 {
            Ok(Rating(value))
        } else {
            Err("Rating must be between 1 and 5")
        }
    }
}

impl From<Rating> for u8 {
    /// The rating's number of stars.
    fn from(rating: Rating) -> (v: u8) {
        rating.0
    }
}

impl vstd::std_specs::convert::FromSpecImpl<Rating> for u8 {
    open spec fn obeys_from_spec() -> bool {
        true
    }

    open spec fn from_spec(rating: Rating) -> u8 {
        rating@
    }
}

impl Default for Rating {
    fn default() -> (r: Self)
        ensures
            r@ == 5,
    {
        Rating(5)
    }
}

/// A review for a scraper package.
#[derive(Debug, Clone)]
pub struct Review {
    /// Unique identifier
    pub id: u128,
    /// ID of the package being reviewed
    pub package_id: u128,
    /// Username of the review's author
    pub reviewer: String,
    /// Rating (1-5 stars)
    pub rating: Rating,
    /// Review title
    pub title: Option<String>,
    /// Review content
    pub content: String,
    /// Whether the author verified they installed the package
    pub verified_install: bool,
    /// Date the review was created (milliseconds since the Unix epoch)
    pub created_at: i64,
    /// Date the review was last updated (milliseconds since the Unix epoch)
    pub updated_at: i64,
    /// Number of users who found this review helpful
    pub helpful_count: u32,
}

impl Review {
    /// Creates a new review, unverified, untitled, with no helpful marks.
    pub fn new(package_id: u128, reviewer: String, rating: Rating, content: String) -> (r: Self)
        ensures
            r.package_id == package_id,
            r.reviewer == reviewer,
            r.rating == rating,
            r.title is None,
            r.content == content,
            !r.verified_install,
            r.created_at == r.updated_at,
            r.helpful_count == 0,
    {
        let now = now_millis();
        Review {
            id: new_id(),
            package_id,
            reviewer,
            rating,
            title: None,
            content,
            verified_install: false,
            created_at: now,
            updated_at: now,
            helpful_count: 0,
        }
    }

    /// Creates a review with a title.
    pub fn with_title(self, title: &str) -> (r: Self)
        ensures
            r.title matches Some(t) && t@ == title@,
            r == (Review { title: r.title, ..self }),
    {
        Review { title: Some(String::from_str(title)), ..self }
    }

    /// Marks the review as a verified install.
    pub fn as_verified(self) -> (r: Self)
        ensures
            r == (Review { verified_install: true, ..self }),
    {
        Review { verified_install: true, ..self }
    }

    /// Increments the helpful count and records the time of the change.
    pub fn mark_helpful(&mut self)
        requires
            old(self).helpful_count < u32::MAX,
        ensures
            *final(self) == (Review {
                helpful_count: (old(self).helpful_count + 1) as u32,
                updated_at: final(self).updated_at,
                ..*old(self)
            }),
    {
        self.helpful_count = self.helpful_count + 1;
        self.updated_at = now_millis();
    }
}

} // verus!
