//! Scraper package entity: the core marketplace item. Prices are in cents.
use crate::clock::{new_id, now_millis};
use crate::marketplace::payout::{creator_cut, creator_share, platform_cut, platform_share};
use crate::marketplace::schema_def::SchemaDefinition;
use vstd::prelude::*;

verus! {

/// Pricing model for scraper packages.
#[derive(Debug, Clone, Copy, PartialEq, Eq, Structural)]
pub enum PricingModel {
    /// Free community-contributed scraper
    Free,
    /// One-time purchase price in US cents
    Paid { price_cents: u64 },
}

impl Default for PricingModel {
    fn default() -> (r: Self)
        ensures
            r == PricingModel::Free,
    {
        PricingModel::Free
    }
}

/// Status of a scraper package in the marketplace.
#[derive(Debug, Clone, Copy, PartialEq, Eq, Structural)]
pub enum ScraperStatus {
    /// Submitted for review
    PendingReview,
    /// Approved and published
    Published,
    /// Rejected during review
    Rejected,
    /// Temporarily suspended
    Suspended,
    /// Deprecated by author
    Deprecated,
}

impl Default for ScraperStatus {
    fn default() -> (r: Self)
        ensures
            r == ScraperStatus::PendingReview,
    {
        ScraperStatus::PendingReview
    }
}

/// Metadata about a scraper package.
///
/// The average rating is kept as the sum of all review ratings with the number
/// of reviews: it is `rating_total / review_count`, and there is none while
/// `review_count` is zero.
#[derive(Debug, Clone, Copy, PartialEq, Eq, Structural)]
pub struct ScraperPackageMetadata {
    /// Total number of installs
    pub install_count: u64,
    /// Sum of the ratings of all reviews
    pub rating_total: u64,
    /// Number of reviews
    pub review_count: u64,
    /// Date when the scraper was first published (milliseconds since the Unix epoch)
    pub published_at: Option<i64>,
    /// Date of last update (milliseconds since the Unix epoch)
    pub updated_at: i64,
}

impl Default for ScraperPackageMetadata {
    fn default() -> (r: Self)
        ensures
            r.install_count == 0,
            r.rating_total == 0,
            r.review_count == 0,
            r.published_at is None,
    {
        ScraperPackageMetadata {
            install_count: 0,
            rating_total: 0,
            review_count: 0,
            published_at: None,
            updated_at: now_millis(),
        }
    }
}

/// A scraper package available in the marketplace.
#[derive(Debug)]
pub struct ScraperPackage {
    /// Unique identifier for the package
    pub id: u128,
    /// Package name (must be unique, lowercase, hyphen-separated)
    pub name: String,
    /// Semantic version (e.g., "1.0.0")
    pub version: String,
    /// Author's username
    pub author: String,
    /// Pricing model
    pub pricing: PricingModel,
    /// List of supported sites/domains
    pub sites: Vec<String>,
    /// Human-readable description
    pub description: String,
    /// Output schema definition
    pub schema: SchemaDefinition,
    /// Package status
    pub status: ScraperStatus,
    /// Additional metadata
    pub metadata: ScraperPackageMetadata,
    /// Optional repository URL
    pub repository_url: Option<String>,
    /// Optional documentation URL
    pub documentation_url: Option<String>,
    /// Optional list of tags for discovery
    pub tags: Vec<String>,
}

/// The price of a pricing model, if it is paid.
pub open spec fn price_of(p: PricingModel) -> Option<u64> {
    match p {
        PricingModel::Free => None,
        PricingModel::Paid { price_cents } => Some(price_cents),
    }
}

impl ScraperPackage {
    /// Creates a new free package, pending review, with fresh metadata and no
    /// URLs or tags.
    pub fn new(
        name: String,
        version: String,
        author: String,
        sites: Vec<String>,
        description: String,
        schema: SchemaDefinition,
    ) -> (r: Self)
        ensures
            r.name == name,
            r.version == version,
            r.author == author,
            r.pricing == PricingModel::Free,
            r.sites == sites,
            r.description == description,
            r.schema == schema,
            r.status == ScraperStatus::PendingReview,
            r.metadata.install_count == 0,
            r.metadata.rating_total == 0,
            r.metadata.review_count == 0,
            r.metadata.published_at is None,
            r.repository_url is None,
            r.documentation_url is None,
            r.tags@.len() == 0,
    {
        ScraperPackage {
            id: new_id(),
            name,
            version,
            author,
            pricing: PricingModel::default(),
            sites,
            description,
            schema,
            status: ScraperStatus::default(),
            metadata: ScraperPackageMetadata::default(),
            repository_url: None,
            documentation_url: None,
            tags: Vec::new(),
        }
    }

    /// Creates a new paid package costing `price_cents`.
    pub fn new_paid(
        name: String,
        version: String,
        author: String,
        sites: Vec<String>,
        description: String,
        schema: SchemaDefinition,
        price_cents: u64,
    ) -> (r: Self)
        ensures
            r.name == name,
            r.version == version,
            r.author == author,
            r.pricing == (PricingModel::Paid { price_cents }),
            r.sites == sites,
            r.description == description,
            r.schema == schema,
            r.status == ScraperStatus::PendingReview,
            r.metadata.install_count == 0,
            r.metadata.rating_total == 0,
            r.metadata.review_count == 0,
            r.metadata.published_at is None,
            r.repository_url is None,
            r.documentation_url is None,
            r.tags@.len() == 0,
    {
        let mut package = Self::new(name, version, author, sites, description, schema);
        package.pricing = PricingModel::Paid { price_cents };
        package
    }

    /// Returns the price in cents if the package is paid, otherwise None.
    pub fn price(&self) -> (r: Option<u64>)
        ensures
            r == price_of(self.pricing),
    {
        match self.pricing {
            PricingModel::Free => None,
            PricingModel::Paid { price_cents } => Some(price_cents),
        }
    }

    /// Returns true if the package is free.
    pub fn is_free(&self) -> (r: bool)
        ensures
            r == (self.pricing == PricingModel::Free),
    {
        match self.pricing {
            PricingModel::Free => true,
            PricingModel::Paid { .. } => false,
        }
    }

    /// Returns true if the package is published and available.
    pub fn is_available(&self) -> (r: bool)
        ensures
            r == (self.status == ScraperStatus::Published),
    {
        self.status == ScraperStatus::Published
    }

    /// The creator's payout for a purchase (70% revenue share), for a paid package.
    pub fn creator_payout(&self) -> (r: Option<u64>)
        ensures
            r == (match price_of(self.pricing) {
                Some(p) => Some(creator_share(p as nat) as u64),
                None => None,
            }),
    {
        match self.price() {
            Some(p) => Some(creator_cut(p)),
            None => None,
        }
    }

    /// The platform fee for a purchase (30% revenue share), for a paid package.
    pub fn platform_fee(&self) -> (r: Option<u64>)
        ensures
            r == (match price_of(self.pricing) {
                Some(p) => Some(platform_share(p as nat) as u64),
                None => None,
            }),
    {
        match self.price() {
            Some(p) => Some(platform_cut(p)),
            None => None,
        }
    }
}

} // verus!
