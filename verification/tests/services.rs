use synmem::marketplace::package::{PricingModel, ScraperPackage, ScraperPackageMetadata, ScraperStatus};
use synmem::marketplace::payout::{PayoutRecord, PayoutStatus};
use synmem::marketplace::payout_service::{
    begin_payout, cancel_pending, check_sale_amount, dollars, found_payout, payout_for_sale,
    payout_repository_failure, pending_earnings, pending_only, settle_payout, total_earnings,
    PayoutError, DEFAULT_MIN_PAYOUT_CENTS,
};
use synmem::marketplace::ports::{PayoutGatewayError, RepositoryError};
use synmem::marketplace::review::{Rating, Review};
use synmem::marketplace::review_service::{
    apply_review_update, check_delete_allowed, check_new_review, compose_review, found_review,
    record_rating_summary, review_repository_failure, sum_ratings, ReviewError,
    DEFAULT_MIN_CONTENT_LENGTH,
};
use synmem::marketplace::schema_def::{FieldMap, SchemaDefinition, SchemaField};
use synmem::marketplace::service::marketplace_repository_failure;
use synmem::marketplace::submission::{
    submission_of, SchemaDefinitionJson, SchemaValidationError, ScraperPackageSubmission,
};

// ----- payouts -----

fn payout(amount: u64) -> PayoutRecord {
    PayoutRecord::from_sale("alice".to_string(), 1, amount)
}

#[test]
fn sale_amounts_must_be_positive() {
    assert!(check_sale_amount(1).is_ok());
    assert!(matches!(check_sale_amount(0), Err(PayoutError::InvalidAmount(m)) if m == "Amount must be positive"));
}

#[test]
fn sales_create_pending_payouts_for_the_author() {
    let package = ScraperPackage::new_paid(
        "p".to_string(),
        "1.0.0".to_string(),
        "carol".to_string(),
        vec!["s.com".to_string()],
        "d".to_string(),
        SchemaDefinition::default(),
        1000,
    );
    let p = payout_for_sale(Some(package), 42, 1000).unwrap();
    assert_eq!(p.creator, "carol");
    assert_eq!(p.package_id, 42);
    assert_eq!(p.creator_amount, 700);
    assert_eq!(p.platform_fee, 300);
    assert_eq!(p.status, PayoutStatus::Pending);
    assert!(matches!(payout_for_sale(None, 42, 1000), Err(PayoutError::PackageNotFound(42))));
    assert!(matches!(payout_for_sale(None, 42, 0), Err(PayoutError::InvalidAmount(_))));
}

#[test]
fn processing_a_payout() {
    let started = begin_payout(payout(1000), DEFAULT_MIN_PAYOUT_CENTS).unwrap();
    assert_eq!(started.status, PayoutStatus::Processing);
    let done = settle_payout(started, Ok("txn_1".to_string()));
    assert_eq!(done.status, PayoutStatus::Completed);
    assert_eq!(done.transaction_id, Some("txn_1".to_string()));
    let id = done.id;
    assert!(matches!(begin_payout(done, 100), Err(PayoutError::AlreadyProcessed(x)) if x == id));

    let failed = settle_payout(
        begin_payout(payout(1000), 100).unwrap(),
        Err(PayoutGatewayError::InsufficientFunds),
    );
    assert_eq!(failed.status, PayoutStatus::Failed);
    assert_eq!(failed.notes, Some("Insufficient funds".to_string()));
}

#[test]
fn small_payouts_wait_for_the_minimum() {
    // 100 cents sold gives a 70 cent payout, under the one dollar minimum.
    match begin_payout(payout(100), DEFAULT_MIN_PAYOUT_CENTS).unwrap_err() {
        PayoutError::InvalidAmount(m) => assert_eq!(m, "Minimum payout amount is $1.00"),
        other => panic!("unexpected {:?}", other),
    }
    match begin_payout(payout(100), 1205).unwrap_err() {
        PayoutError::InvalidAmount(m) => assert_eq!(m, "Minimum payout amount is $12.05"),
        other => panic!("unexpected {:?}", other),
    }
    assert_eq!(dollars(0), "0.00");
    assert_eq!(dollars(7), "0.07");
    assert_eq!(dollars(123456), "1234.56");
}

#[test]
fn cancelling_payouts() {
    let c = cancel_pending(payout(1000), "duplicate").unwrap();
    assert_eq!(c.status, PayoutStatus::Cancelled);
    assert_eq!(c.notes, Some("duplicate".to_string()));
    let id = c.id;
    assert!(matches!(cancel_pending(c, "again"), Err(PayoutError::AlreadyProcessed(x)) if x == id));
}

#[test]
fn earnings_and_pending_lists() {
    let mut completed = payout(1000);
    completed.complete("t".to_string());
    let mut failed = payout(2000);
    failed.fail("x");
    let list = vec![payout(100), completed, failed, payout(300)];
    assert_eq!(total_earnings(&list), 700);
    assert_eq!(pending_earnings(&list), 70 + 210);
    let pending = pending_only(list);
    assert_eq!(pending.len(), 2);
    assert_eq!(pending[0].sale_amount, 100);
    assert_eq!(pending[1].sale_amount, 300);
    assert_eq!(total_earnings(&vec![]), 0);
}

#[test]
fn payout_lookups_and_messages() {
    assert!(found_payout(Some(payout(5)), 9).is_ok());
    assert!(matches!(found_payout(None, 9), Err(PayoutError::PayoutNotFound(9))));
    assert_eq!(
        PayoutError::AlreadyProcessed(255).to_string(),
        "Payout already processed: 00000000-0000-0000-0000-0000000000ff"
    );
    assert_eq!(PayoutError::InvalidAmount("x".to_string()).to_string(), "Invalid amount: x");
    assert_eq!(
        PayoutError::GatewayError("down".to_string()).to_string(),
        "Payment gateway error: down"
    );
    match payout_repository_failure(&RepositoryError::DatabaseError("locked".to_string())) {
        PayoutError::RepositoryError(m) => assert_eq!(m, "Database error: locked"),
        other => panic!("unexpected {:?}", other),
    }
    match marketplace_repository_failure(&RepositoryError::NotFound) {
        synmem::marketplace::service::MarketplaceError::RepositoryError(m) => {
            assert_eq!(m, "Entity not found")
        }
        other => panic!("unexpected {:?}", other),
    }
}

#[test]
fn marketplace_port_error_messages() {
    assert_eq!(RepositoryError::AlreadyExists.to_string(), "Entity already exists");
    assert_eq!(
        RepositoryError::SerializationError("bad".to_string()).to_string(),
        "Serialization error: bad"
    );
    assert_eq!(
        PayoutGatewayError::InvalidRecipient("bob".to_string()).to_string(),
        "Invalid recipient: bob"
    );
    assert_eq!(PayoutGatewayError::PaymentFailed("x".to_string()).to_string(), "Payment failed: x");
    assert_eq!(PayoutGatewayError::NetworkError("y".to_string()).to_string(), "Network error: y");
}

// ----- reviews -----

fn review(reviewer: &str, rating: u8) -> Review {
    Review::new(3, reviewer.to_string(), Rating::new(rating), "Solid and useful".to_string())
}

#[test]
fn new_reviews_are_checked() {
    assert_eq!(check_new_review(4, "long enough text", DEFAULT_MIN_CONTENT_LENGTH).unwrap().value(), 4);
    assert!(matches!(check_new_review(0, "long enough text", 10), Err(ReviewError::InvalidRating)));
    assert!(matches!(check_new_review(6, "short", 10), Err(ReviewError::InvalidRating)));
    assert!(matches!(check_new_review(3, "short", 10), Err(ReviewError::ContentTooShort(10))));
    // Length is counted in characters: five characters are too short for ten,
    // though they take ten bytes.
    assert!(matches!(check_new_review(3, "ééééé", 10), Err(ReviewError::ContentTooShort(10))));
    assert!(check_new_review(3, "éééééééééé", 10).is_ok());
}

#[test]
fn composing_reviews() {
    assert!(matches!(
        compose_review(3, "alice", Rating::new(5), "content!!", None, true, false),
        Err(ReviewError::AlreadyReviewed)
    ));
    let r = compose_review(3, "alice", Rating::new(5), "content!!", Some("Title"), false, true)
        .unwrap();
    assert_eq!(r.package_id, 3);
    assert_eq!(r.reviewer, "alice");
    assert_eq!(r.title, Some("Title".to_string()));
    assert!(r.verified_install);
    assert_eq!(r.helpful_count, 0);
    let r = compose_review(3, "bob", Rating::new(2), "content!!", None, false, false).unwrap();
    assert!(!r.verified_install);
    assert!(r.title.is_none());
}

#[test]
fn updating_and_deleting_reviews() {
    match apply_review_update(review("alice", 3), "bob", Some(5), None, None, 10).unwrap_err() {
        ReviewError::RepositoryError(m) => assert_eq!(m, "Only the author of a review can update it"),
        other => panic!("unexpected {:?}", other),
    }
    assert!(matches!(
        apply_review_update(review("alice", 3), "alice", Some(7), None, None, 10),
        Err(ReviewError::InvalidRating)
    ));
    assert!(matches!(
        apply_review_update(review("alice", 3), "alice", None, Some("tiny"), None, 10),
        Err(ReviewError::ContentTooShort(10))
    ));
    let updated = apply_review_update(
        review("alice", 3),
        "alice",
        Some(5),
        Some("much better now"),
        Some("New title"),
        10,
    )
    .unwrap();
    assert_eq!(updated.rating.value(), 5);
    assert_eq!(updated.content, "much better now");
    assert_eq!(updated.title, Some("New title".to_string()));
    let kept = apply_review_update(review("alice", 3), "alice", None, None, None, 10).unwrap();
    assert_eq!(kept.rating.value(), 3);
    assert_eq!(kept.content, "Solid and useful");

    assert!(check_delete_allowed(&review("alice", 3), "alice").is_ok());
    match check_delete_allowed(&review("alice", 3), "eve").unwrap_err() {
        ReviewError::RepositoryError(m) => assert_eq!(m, "Only the author of a review can delete it"),
        other => panic!("unexpected {:?}", other),
    }
}

#[test]
fn rating_summaries() {
    let reviews = vec![review("a", 5), review("b", 4), review("c", 1)];
    assert_eq!(sum_ratings(&reviews), 10);
    let mut metadata = ScraperPackageMetadata::default();
    metadata.install_count = 12;
    record_rating_summary(&mut metadata, &reviews);
    assert_eq!(metadata.rating_total, 10);
    assert_eq!(metadata.review_count, 3);
    assert_eq!(metadata.install_count, 12);
    record_rating_summary(&mut metadata, &vec![]);
    assert_eq!(metadata.rating_total, 0);
    assert_eq!(metadata.review_count, 0);
}

#[test]
fn review_lookups_and_messages() {
    assert!(found_review(Some(review("a", 2)), 4).is_ok());
    assert!(matches!(found_review(None, 4), Err(ReviewError::ReviewNotFound(4))));
    assert_eq!(ReviewError::ContentTooShort(10).to_string(), "Content too short: minimum 10 characters");
    assert_eq!(ReviewError::InvalidRating.to_string(), "Invalid rating: must be between 1 and 5");
    assert_eq!(ReviewError::AlreadyReviewed.to_string(), "User already reviewed this package");
    assert_eq!(
        ReviewError::ReviewNotFound(16).to_string(),
        "Review not found: 00000000-0000-0000-0000-000000000010"
    );
    match review_repository_failure(&RepositoryError::NotFound) {
        ReviewError::RepositoryError(m) => assert_eq!(m, "Entity not found"),
        other => panic!("unexpected {:?}", other),
    }
}

// ----- submissions -----

fn example_output() -> FieldMap {
    let mut output = FieldMap::new();
    output.insert("name".to_string(), SchemaField::required_string());
    output.insert("headline".to_string(), SchemaField::string());
    output.insert("experience".to_string(), SchemaField::array(SchemaField::string()));
    output
}

fn example_submission() -> ScraperPackageSubmission {
    ScraperPackageSubmission {
        name: "linkedin-profile-scraper".to_string(),
        version: "1.0.0".to_string(),
        author: "username".to_string(),
        price: Some(500),
        sites: vec!["linkedin.com".to_string()],
        description: "Extract profile data from LinkedIn".to_string(),
        schema: SchemaDefinitionJson { output: Ok(example_output()) },
        repository_url: None,
        documentation_url: None,
        tags: vec!["linkedin".to_string(), "profile".to_string(), "professional".to_string()],
    }
}

fn simple_submission(name: &str, sites: Vec<String>) -> ScraperPackageSubmission {
    ScraperPackageSubmission {
        name: name.to_string(),
        version: "1.0.0".to_string(),
        author: "user".to_string(),
        price: None,
        sites,
        description: "A scraper".to_string(),
        schema: SchemaDefinitionJson { output: Ok(FieldMap::new()) },
        repository_url: None,
        documentation_url: None,
        tags: vec![],
    }
}

#[test]
fn test_validate_and_convert() {
    let package = example_submission().validate_and_convert().unwrap();
    assert_eq!(package.name, "linkedin-profile-scraper");
    assert!(!package.is_free());
    assert_eq!(package.price(), Some(500));
    assert_eq!(package.status, ScraperStatus::PendingReview);
    assert!(package.schema.output.contains_key("experience"));
    assert_eq!(package.tags.len(), 3);
}

#[test]
fn test_free_package() {
    let package =
        simple_submission("free-scraper", vec!["example.com".to_string()]).validate_and_convert().unwrap();
    assert!(package.is_free());
    assert_eq!(package.price(), None);
}

#[test]
fn test_invalid_name() {
    let result = simple_submission("Invalid Name", vec!["example.com".to_string()]).validate_and_convert();
    assert!(matches!(result.unwrap_err(), SchemaValidationError::InvalidFieldValue(_, _)));
}

#[test]
fn test_missing_sites() {
    let result = simple_submission("test-scraper", vec![]).validate_and_convert();
    assert!(result.is_err());
}

#[test]
fn submission_rules_in_order() {
    let mut s = simple_submission("", vec![]);
    s.version = "bad".to_string();
    assert!(matches!(s.validate_and_convert(), Err(SchemaValidationError::MissingField(f)) if f == "name"));

    let mut s = simple_submission("ok", vec!["a".to_string()]);
    s.version = String::new();
    assert!(matches!(s.validate_and_convert(), Err(SchemaValidationError::MissingField(f)) if f == "version"));

    let mut s = simple_submission("ok", vec!["a".to_string()]);
    s.version = "1.0".to_string();
    match s.validate_and_convert().unwrap_err() {
        SchemaValidationError::InvalidFieldValue(f, m) => {
            assert_eq!(f, "version");
            assert_eq!(m, "must be in valid semver format (e.g., 1.0.0)");
        }
        other => panic!("unexpected {:?}", other),
    }
    let mut s = simple_submission("ok", vec!["a".to_string()]);
    s.version = "1.2.3-beta.1+build.5".to_string();
    assert!(s.validate_and_convert().is_ok());

    let mut s = simple_submission("ok", vec!["a".to_string()]);
    s.author = String::new();
    assert!(matches!(s.validate_and_convert(), Err(SchemaValidationError::MissingField(f)) if f == "author"));

    let mut s = simple_submission("ok", vec!["a".to_string()]);
    s.description = String::new();
    assert!(matches!(s.validate_and_convert(), Err(SchemaValidationError::MissingField(f)) if f == "description"));

    let mut s = simple_submission("ok", vec!["a".to_string()]);
    s.schema = SchemaDefinitionJson { output: Err("expected a map".to_string()) };
    match s.validate_and_convert().unwrap_err() {
        SchemaValidationError::InvalidJson(m) => {
            assert_eq!(m, "Failed to parse output schema: expected a map")
        }
        other => panic!("unexpected {:?}", other),
    }

    let mut s = simple_submission("ok", vec!["a".to_string()]);
    s.price = Some(0);
    assert_eq!(s.validate_and_convert().unwrap().pricing, PricingModel::Free);
}

#[test]
fn submissions_round_trip() {
    let package = example_submission().validate_and_convert().unwrap();
    let again = submission_of(package).validate_and_convert().unwrap();
    assert_eq!(again.name, "linkedin-profile-scraper");
    assert_eq!(again.pricing, PricingModel::Paid { price_cents: 500 });
    assert!(again.schema.output.get("name").unwrap().required);
}

#[test]
fn schema_error_messages() {
    assert_eq!(SchemaValidationError::InvalidJson("x".to_string()).to_string(), "Invalid JSON: x");
    assert_eq!(
        SchemaValidationError::MissingField("name".to_string()).to_string(),
        "Missing required field: name"
    );
    assert_eq!(
        SchemaValidationError::InvalidFieldValue("v".to_string(), "bad".to_string()).to_string(),
        "Invalid field value for 'v': bad"
    );
    assert_eq!(
        SchemaValidationError::ValidationFailed("z".to_string()).to_string(),
        "Schema validation failed: z"
    );
}
