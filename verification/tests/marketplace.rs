use synmem::marketplace::install::InstallRecord;
use synmem::marketplace::package::{PricingModel, ScraperPackage, ScraperStatus};
use synmem::marketplace::payout::{
    creator_cut, platform_cut, PayoutRecord, PayoutStatus, CREATOR_SHARE_PERCENT,
    PLATFORM_SHARE_PERCENT,
};
use synmem::marketplace::review::{Rating, Review};
use synmem::marketplace::schema_def::{FieldMap, SchemaDefinition, SchemaField, SchemaFieldType};
use synmem::marketplace::service::{
    accept_submission, accept_update, approve, deprecate, found_package, found_package_named,
    install_for, reject, uninstall_found, validate_package, MarketplaceError,
};

fn sites(list: &[&str]) -> Vec<String> {
    list.iter().map(|s| s.to_string()).collect()
}

fn package(name: &str) -> ScraperPackage {
    ScraperPackage::new(
        name.to_string(),
        "1.0.0".to_string(),
        "alice".to_string(),
        sites(&["example.com"]),
        "A test scraper".to_string(),
        SchemaDefinition::default(),
    )
}

// ----- packages -----

#[test]
fn test_new_free_scraper() {
    let package = ScraperPackage::new(
        "test-scraper".to_string(),
        "1.0.0".to_string(),
        "alice".to_string(),
        sites(&["example.com"]),
        "A test scraper".to_string(),
        SchemaDefinition::default(),
    );
    assert!(package.is_free());
    assert_eq!(package.price(), None);
    assert_eq!(package.status, ScraperStatus::PendingReview);
    assert!(!package.is_available());
}

#[test]
fn test_new_paid_scraper() {
    let package = ScraperPackage::new_paid(
        "premium-scraper".to_string(),
        "2.0.0".to_string(),
        "bob".to_string(),
        sites(&["linkedin.com"]),
        "A premium scraper".to_string(),
        SchemaDefinition::default(),
        500,
    );
    assert!(!package.is_free());
    assert_eq!(package.price(), Some(500));
}

#[test]
fn test_revenue_split() {
    let package = ScraperPackage::new_paid(
        "paid-scraper".to_string(),
        "1.0.0".to_string(),
        "creator".to_string(),
        sites(&["site.com"]),
        "Paid scraper".to_string(),
        SchemaDefinition::default(),
        1000,
    );
    // 70% to creator, 30% to platform
    assert_eq!(package.creator_payout(), Some(700));
    assert_eq!(package.platform_fee(), Some(300));
}

#[test]
fn revenue_split_rounds_down_for_the_creator() {
    assert_eq!(creator_cut(999), 699);
    assert_eq!(platform_cut(999), 300);
    assert_eq!(creator_cut(1), 0);
    assert_eq!(platform_cut(1), 1);
    assert_eq!(creator_cut(u64::MAX) + platform_cut(u64::MAX), u64::MAX);
}

// ----- installs -----

#[test]
fn test_install_record() {
    let record = InstallRecord::new(7, "alice".to_string(), "1.0.0".to_string());
    assert!(record.is_active);
    assert!(record.uninstalled_at.is_none());
}

#[test]
fn test_uninstall() {
    let mut record = InstallRecord::new(8, "bob".to_string(), "2.0.0".to_string());
    record.uninstall();
    assert!(!record.is_active);
    assert!(record.uninstalled_at.is_some());
}

// ----- payouts -----

#[test]
fn test_payout_creation() {
    let payout = PayoutRecord::from_sale("alice".to_string(), 1, 1000);
    assert_eq!(payout.creator_amount, 700);
    assert_eq!(payout.platform_fee, 300);
    assert_eq!(payout.status, PayoutStatus::Pending);
    assert!(!payout.is_finalized());
}

#[test]
fn test_payout_lifecycle() {
    let mut payout = PayoutRecord::from_sale("bob".to_string(), 2, 2000);
    payout.start_processing();
    assert_eq!(payout.status, PayoutStatus::Processing);
    assert!(!payout.is_finalized());
    payout.complete("txn_123".to_string());
    assert_eq!(payout.status, PayoutStatus::Completed);
    assert_eq!(payout.transaction_id, Some("txn_123".to_string()));
    assert!(payout.is_finalized());
}

#[test]
fn test_payout_failure() {
    let mut payout = PayoutRecord::from_sale("charlie".to_string(), 3, 500);
    payout.fail("Payment processor error");
    assert_eq!(payout.status, PayoutStatus::Failed);
    assert!(payout.is_finalized());
    assert!(payout.notes.is_some());
}

#[test]
fn payout_cancel_keeps_notes_without_reason() {
    let mut payout = PayoutRecord::from_sale("dave".to_string(), 4, 100);
    payout.cancel(None);
    assert_eq!(payout.status, PayoutStatus::Cancelled);
    assert!(payout.notes.is_none());
    assert!(payout.is_finalized());
    let mut payout = PayoutRecord::from_sale("dave".to_string(), 4, 100);
    payout.cancel(Some("refund"));
    assert_eq!(payout.notes, Some("refund".to_string()));
}

#[test]
fn test_revenue_share_constants() {
    assert_eq!(CREATOR_SHARE_PERCENT + PLATFORM_SHARE_PERCENT, 100);
}

// ----- ratings and reviews -----

#[test]
fn test_rating_creation() {
    let rating = Rating::new(5);
    assert_eq!(rating.value(), 5);
    let rating = Rating::clamped(10);
    assert_eq!(rating.value(), 5);
    let rating = Rating::clamped(0);
    assert_eq!(rating.value(), 1);
}

#[test]
fn test_rating_try_from() {
    assert!(Rating::try_from(3).is_ok());
    assert!(Rating::try_from(0).is_err());
    assert!(Rating::try_from(6).is_err());
}

#[test]
fn rating_try_from_exact() {
    for v in 1..=5u8 {
        assert_eq!(Rating::try_from(v).unwrap().value(), v);
    }
    assert_eq!(Rating::try_from(9).unwrap_err(), "Rating must be between 1 and 5");
    assert_eq!(Rating::default().value(), 5);
    assert_eq!(u8::from(Rating::new(4)), 4);
    let stars: u8 = Rating::clamped(9).into();
    assert_eq!(stars, 5);
}

#[test]
fn test_review_creation() {
    let review = Review::new(11, "alice".to_string(), Rating::new(4), "Great scraper!".to_string())
        .with_title("Excellent tool")
        .as_verified();
    assert_eq!(review.rating.value(), 4);
    assert_eq!(review.title, Some("Excellent tool".to_string()));
    assert!(review.verified_install);
}

#[test]
fn test_review_helpful() {
    let mut review = Review::new(12, "bob".to_string(), Rating::new(5), "Amazing!".to_string());
    assert_eq!(review.helpful_count, 0);
    review.mark_helpful();
    assert_eq!(review.helpful_count, 1);
}

// ----- schemas -----

#[test]
fn test_schema_definition() {
    let schema = SchemaDefinition::new()
        .with_field("name", SchemaField::required_string())
        .with_field("tags", SchemaField::array(SchemaField::string()));
    assert!(schema.output.contains_key("name"));
    assert!(schema.output.contains_key("tags"));
    assert!(schema.output.get("name").unwrap().required);
}

#[test]
fn test_linkedin_schema() {
    let schema = SchemaDefinition::linkedin_profile();
    assert!(schema.output.contains_key("name"));
    assert!(schema.output.contains_key("experience"));
    assert_eq!(schema.output.get("experience").unwrap().field_type, SchemaFieldType::Array);
}

#[test]
fn schema_fields_replace_and_nest() {
    let mut map = FieldMap::new();
    map.insert("a".to_string(), SchemaField::string());
    map.insert("a".to_string(), SchemaField::required_string().with_description("the a"));
    assert!(map.get("a").unwrap().required);
    assert_eq!(map.get("a").unwrap().description, Some("the a".to_string()));
    assert!(map.get("b").is_none());
    let obj = SchemaField::object(map);
    assert_eq!(obj.field_type, SchemaFieldType::Object);
    assert!(obj.properties.as_ref().unwrap().contains_key("a"));
    let arr = SchemaField::array(SchemaField::string()).as_required();
    assert!(arr.required);
    assert_eq!(arr.items.as_ref().unwrap().field_type, SchemaFieldType::String);
    let amazon = SchemaDefinition::amazon_product();
    assert!(amazon.output.contains_key("title"));
    assert_eq!(amazon.output.get("price").unwrap().field_type, SchemaFieldType::Number);
    assert_eq!(SchemaFieldType::default(), SchemaFieldType::String);
}

// ----- marketplace rules -----

#[test]
fn package_validation_rules() {
    assert!(validate_package(&package("good-name-2")).is_ok());
    let cases = [
        ("", "Package name cannot be empty"),
        ("Bad Name", "Package name must be lowercase with hyphens only"),
    ];
    for (name, message) in cases {
        match validate_package(&package(name)).unwrap_err() {
            MarketplaceError::InvalidPackage(m) => assert_eq!(m, message),
            other => panic!("unexpected {:?}", other),
        }
    }
    let mut p = package("ok");
    p.version = String::new();
    assert!(matches!(validate_package(&p), Err(MarketplaceError::InvalidPackage(m)) if m == "Version cannot be empty"));
    let mut p = package("ok");
    p.sites = vec![];
    assert!(matches!(validate_package(&p), Err(MarketplaceError::InvalidPackage(m)) if m == "At least one site must be specified"));
    let mut p = package("ok");
    p.description = String::new();
    assert!(matches!(validate_package(&p), Err(MarketplaceError::InvalidPackage(m)) if m == "Description cannot be empty"));
}

#[test]
fn submission_update_and_review_flow() {
    let p = accept_submission(package("x"), false).unwrap();
    assert_eq!(p.status, ScraperStatus::PendingReview);
    assert!(matches!(accept_submission(package("x"), true), Err(MarketplaceError::PackageAlreadyExists(n)) if n == "x"));

    let existing = package("x");
    let updated = accept_update(&existing, 99, "alice", package("x")).unwrap();
    assert_eq!(updated.id, 99);
    assert!(matches!(accept_update(&existing, 99, "mallory", package("x")), Err(MarketplaceError::PermissionDenied(m)) if m == "Only the author can update a package"));

    let published = approve(package("x"));
    assert_eq!(published.status, ScraperStatus::Published);
    assert!(published.metadata.published_at.is_some());
    assert!(published.is_available());
    assert_eq!(reject(package("x")).status, ScraperStatus::Rejected);
    assert_eq!(deprecate(package("x"), "alice").unwrap().status, ScraperStatus::Deprecated);
    assert!(matches!(deprecate(package("x"), "bob"), Err(MarketplaceError::PermissionDenied(m)) if m == "Only the author can deprecate a package"));
}

#[test]
fn installs_need_a_published_package() {
    let pending = package("x");
    assert!(matches!(install_for(5, &pending, "u"), Err(MarketplaceError::PackageNotAvailable(5))));
    let published = approve(package("x"));
    let record = install_for(5, &published, "u").unwrap();
    assert_eq!(record.package_id, 5);
    assert_eq!(record.user, "u");
    assert_eq!(record.version, "1.0.0");
    let un = uninstall_found(Some(record), 5).unwrap();
    assert!(!un.is_active);
    assert!(matches!(uninstall_found(None, 5), Err(MarketplaceError::PackageNotFound(5))));
}

#[test]
fn lookups_and_messages() {
    assert!(found_package(Some(package("x")), 1).is_ok());
    assert!(matches!(found_package(None, 1), Err(MarketplaceError::PackageNotFound(1))));
    assert!(matches!(found_package_named(None, "ghost"), Err(MarketplaceError::InvalidPackage(m)) if m == "Package not found: ghost"));
    assert_eq!(
        MarketplaceError::PackageNotFound(1).to_string(),
        "Package not found: 00000000-0000-0000-0000-000000000001"
    );
    assert_eq!(
        MarketplaceError::PackageNotAvailable(0xa1a2a3a4b1b2c1c2d1d2d3d4d5d6d7d8).to_string(),
        "Package is not available: a1a2a3a4-b1b2-c1c2-d1d2-d3d4d5d6d7d8"
    );
    assert_eq!(
        MarketplaceError::PermissionDenied("no".to_string()).to_string(),
        "Permission denied: no"
    );
    assert_eq!(PricingModel::default(), PricingModel::Free);
    assert_eq!(ScraperStatus::default(), ScraperStatus::PendingReview);
}
