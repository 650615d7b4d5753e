//! Review service rules: what a new review must satisfy, who may change or
//! delete a review, what an update changes, and the rating summary that a
//! package keeps of its reviews.
use crate::clock::{now_millis, uuid_text, uuid_text_of};
use crate::text::{decimal, push_decimal};
use crate::marketplace::package::ScraperPackageMetadata;
use crate::marketplace::ports::{repository_error_text, RepositoryError};
use crate::marketplace::review::{Rating, Review};
use crate::text::{chars_of, same_text};
use vstd::prelude::*;
use vstd::string::*;

verus! {

/// Errors that can occur in review operations.
#[derive(Debug, Clone)]
pub enum ReviewError {
    ReviewNotFound(u128),
    PackageNotFound(u128),
    AlreadyReviewed,
    InvalidRating,
    ContentTooShort(usize),
    RepositoryError(String),
}

/// The message of a review error.
pub open spec fn review_error_text(e: ReviewError) -> Seq<char> {
    match e {
        ReviewError::ReviewNotFound(id) => "Review not found: "@ + uuid_text_of(id),
        ReviewError::PackageNotFound(id) => "Package not found: "@ + uuid_text_of(id),
        ReviewError::AlreadyReviewed => "User already reviewed this package"@,
        ReviewError::InvalidRating => "Invalid rating: must be between 1 and 5"@,
        ReviewError::ContentTooShort(n) => "Content too short: minimum "@ + decimal(n as nat)
            + " characters"@,
        ReviewError::RepositoryError(m) => "Repository error: "@ + m@,
    }
}

impl ReviewError {
    /// The error's message.
    pub fn to_string(&self) -> (r: String)
        ensures
            r@ == review_error_text(*self),
    {
        match self {
            ReviewError::ReviewNotFound(id) => String::from_str("Review not found: ").concat(
                uuid_text(*id).as_str(),
            ),
            ReviewError::PackageNotFound(id) => String::from_str("Package not found: ").concat(
                uuid_text(*id).as_str(),
            ),
            ReviewError::AlreadyReviewed => String::from_str("User already reviewed this package"),
            ReviewError::InvalidRating => String::from_str(
                "Invalid rating: must be between 1 and 5",
            ),
            ReviewError::ContentTooShort(n) => {
                let mut s = String::from_str("Content too short: minimum ");
                push_decimal(&mut s, *n as u64);
                s.append(" characters");
                s
            },
            ReviewError::RepositoryError(m) => String::from_str("Repository error: ").concat(
                m.as_str(),
            ),
        }
    }
}

/// The shortest review content accepted by default, in characters.
pub const DEFAULT_MIN_CONTENT_LENGTH: usize = 10;

/// Checks the rating and the content of a new review: the rating must be
/// between 1 and 5, the content at least `min_content_length` characters long.
pub fn check_new_review(rating: u8, content: &str, min_content_length: usize) -> (r: Result<
    Rating,
    ReviewError,
>)
    ensures
        !(1 <= rating <= 5) ==> r matches Err(ReviewError::InvalidRating),
        1 <= rating <= 5 && content@.len() < min_content_length ==> (r matches Err(
            ReviewError::ContentTooShort(n),
        ) && n == min_content_length),
        1 <= rating <= 5 && content@.len() >= min_content_length ==> (r matches Ok(v) && v@
            == rating),
{
    let rating = match Rating::try_from(rating) {
        Ok(v) => v,
        Err(_) => {
            return Err(ReviewError::InvalidRating);
        },
    };
    if chars_of(content).len() < min_content_length {
        return Err(ReviewError::ContentTooShort(min_content_length));
    }
    Ok(rating)
}

/// Writes a new review once its rating and content were checked: refused if
/// its author has already reviewed the package, marked as a verified install
/// if its author has installed the package, titled if a title is given.
pub fn compose_review(
    package_id: u128,
    reviewer: &str,
    rating: Rating,
    content: &str,
    title: Option<&str>,
    already_reviewed: bool,
    installed: bool,
) -> (r: Result<Review, ReviewError>)
    ensures
        already_reviewed ==> r matches Err(ReviewError::AlreadyReviewed),
        !already_reviewed ==> (r matches Ok(v) && {
            &&& v.package_id == package_id
            &&& v.reviewer@ == reviewer@
            &&& v.rating == rating
            &&& v.content@ == content@
            &&& v.verified_install == installed
            &&& v.helpful_count == 0
            &&& v.created_at == v.updated_at
            &&& match title {
                Some(t) => v.title matches Some(vt) && vt@ == t@,
                None => v.title is None,
            }
        }),
{
    if already_reviewed {
        return Err(ReviewError::AlreadyReviewed);
    }
    let mut review = Review::new(
        package_id,
        String::from_str(reviewer),
        rating,
        String::from_str(content),
    );
    match title {
        Some(t) => {
            review = review.with_title(t);
        },
        None => {},
    }
    if installed {
        review = review.as_verified();
    }
    Ok(review)
}

/// Checks, before a review is deleted, that the user asking wrote it.
pub fn check_delete_allowed(review: &Review, reviewer: &str) -> (r: Result<(), ReviewError>)
    ensures
        review.reviewer@ == reviewer@ ==> r is Ok,
        review.reviewer@ != reviewer@ ==> (r matches Err(ReviewError::RepositoryError(m)) && m@
            == "Only the author of a review can delete it"@),
{
    if !same_text(review.reviewer.as_str(), reviewer) {
        return Err(
            ReviewError::RepositoryError(
                String::from_str("Only the author of a review can delete it"),
            ),
        );
    }
    Ok(())
}

/// A new rating that is given and lies outside `1..=5`.
pub open spec fn bad_rating(rating: Option<u8>) -> bool {
    match rating {
        Some(x) => !(1 <= x <= 5),
        None => false,
    }
}

/// New content that is given and is shorter than `min_content_length` characters.
pub open spec fn too_short(content: Option<&str>, min_content_length: usize) -> bool {
    match content {
        Some(c) => c@.len() < min_content_length,
        None => false,
    }
}

/// Applies an update to a review, in this order: only its author may update
/// it; a new rating must be between 1 and 5; new content must be at least
/// `min_content_length` characters long; a new title replaces the old one. The
/// update time is then set to the present.
pub fn apply_review_update(
    review: Review,
    reviewer: &str,
    rating: Option<u8>,
    content: Option<&str>,
    title: Option<&str>,
    min_content_length: usize,
) -> (r: Result<Review, ReviewError>)
    ensures
        review.reviewer@ != reviewer@ ==> (r matches Err(ReviewError::RepositoryError(m)) && m@
            == "Only the author of a review can update it"@),
        review.reviewer@ == reviewer@ && bad_rating(rating) ==> r matches Err(
            ReviewError::InvalidRating,
        ),
        review.reviewer@ == reviewer@ && !bad_rating(rating) && too_short(content, min_content_length)
            ==> (r matches Err(ReviewError::ContentTooShort(n)) && n == min_content_length),
        review.reviewer@ == reviewer@ && !bad_rating(rating) && !too_short(
            content,
            min_content_length,
        ) ==> (r matches Ok(v) && {
            &&& v.id == review.id
            &&& v.package_id == review.package_id
            &&& v.reviewer == review.reviewer
            &&& v.verified_install == review.verified_install
            &&& v.created_at == review.created_at
            &&& v.helpful_count == review.helpful_count
            &&& match rating {
                Some(x) => v.rating@ == x,
                None => v.rating == review.rating,
            }
            &&& match content {
                Some(c) => v.content@ == c@,
                None => v.content == review.content,
            }
            &&& match title {
                Some(t) => v.title matches Some(vt) && vt@ == t@,
                None => v.title == review.title,
            }
        }),
{
    if !same_text(review.reviewer.as_str(), reviewer) {
        return Err(
            ReviewError::RepositoryError(
                String::from_str("Only the author of a review can update it"),
            ),
        );
    }
    let mut review = review;
    match rating {
        Some(x) => {
            match Rating::try_from(x) {
                Ok(v) => {
                    review.rating = v;
                },
                Err(_) => {
                    return Err(ReviewError::InvalidRating);
                },
            }
        },
        None => {},
    }
    match content {
        Some(c) => {
            if chars_of(c).len() < min_content_length {
                return Err(ReviewError::ContentTooShort(min_content_length));
            }
            review.content = String::from_str(c);
        },
        None => {},
    }
    match title {
        Some(t) => {
            review.title = Some(String::from_str(t));
        },
        None => {},
    }
    review.updated_at = now_millis();
    Ok(review)
}

/// The sum of the ratings of a sequence of reviews.
pub open spec fn ratings_sum(reviews: Seq<Review>) -> nat
    decreases reviews.len(),
{
    if reviews.len() == 0 {
        0
    } else {
        ratings_sum(reviews.drop_last()) + reviews.last().rating@ as nat
    }
}

/// Every rating is between 1 and 5 stars.
pub open spec fn ratings_in_range(reviews: Seq<Review>) -> bool {
    forall|i: int| 0 <= i < reviews.len() ==> 1 <= #[trigger] reviews[i].rating@ <= 5
}

/// The sum of the ratings of some reviews is between one and five stars a
/// review: an average rating lies between 1 and 5.
pub proof fn law_average_within_stars(reviews: Seq<Review>)
    requires
        ratings_in_range(reviews),
    ensures
        reviews.len() <= ratings_sum(reviews) <= 5 * reviews.len(),
    decreases reviews.len(),
{
    if reviews.len() > 0 {
        assert(ratings_in_range(reviews.drop_last())) by {
            assert forall|i: int| 0 <= i < reviews.drop_last().len() implies 1
                <= #[trigger] reviews.drop_last()[i].rating@ <= 5 by {
                assert(reviews.drop_last()[i] == reviews[i]);
            }
        }
        law_average_within_stars(reviews.drop_last());
        assert(reviews.last() == reviews[reviews.len() - 1]);
    }
}

/// Sums the ratings of the reviews of a package.
pub fn sum_ratings(reviews: &Vec<Review>) -> (r: u64)
    requires
        reviews.len() <= u64::MAX / 5,
    ensures
        r == ratings_sum(reviews@),
{
    let mut total: u64 = 0;
    let mut i: usize = 0;
    while i < reviews.len()
        invariant
            i <= reviews.len(),
            reviews.len() <= u64::MAX / 5,
            total == ratings_sum(reviews@.take(i as int)),
            total <= 5 * i,
        decreases reviews.len() - i,
    {
        let v = reviews[i].rating.value();
        proof {
            assert(reviews@.take(i + 1).drop_last() =~= reviews@.take(i as int));
            assert(reviews@.take(i + 1).last() == reviews@[i as int]);
        }
        total = total + v as u64;
        i = i + 1;
    }
    assert(reviews@.take(reviews.len() as int) =~= reviews@);
    total
}

/// Records on a package's metadata the rating summary of its reviews: the sum
/// of their ratings and their number.
pub fn record_rating_summary(metadata: &mut ScraperPackageMetadata, reviews: &Vec<Review>)
    requires
        reviews.len() <= u64::MAX / 5,
    ensures
        final(metadata).rating_total == ratings_sum(reviews@),
        final(metadata).review_count == reviews.len(),
        final(metadata).install_count == old(metadata).install_count,
        final(metadata).published_at == old(metadata).published_at,
        final(metadata).updated_at == old(metadata).updated_at,
{
    metadata.rating_total = sum_ratings(reviews);
    metadata.review_count = reviews.len() as u64;
}

/// A repository failure, as the review service reports it.
pub fn review_repository_failure(e: &RepositoryError) -> (r: ReviewError)
    ensures
        r matches ReviewError::RepositoryError(m) && m@ == repository_error_text(*e),
{
    ReviewError::RepositoryError(e.to_string())
}

/// The review that a lookup by id found, or `ReviewNotFound` for that id.
pub fn found_review(found: Option<Review>, id: u128) -> (r: Result<Review, ReviewError>)
    ensures
        match found {
            Some(v) => r == Ok::<Review, ReviewError>(v),
            None => r == Err::<Review, ReviewError>(ReviewError::ReviewNotFound(id)),
        },
{
    match found {
        Some(v) => Ok(v),
        None => Err(ReviewError::ReviewNotFound(id)),
    }
}

} // verus!
