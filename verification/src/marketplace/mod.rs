//! Community scraper marketplace: packages, reviews, installs and payouts,
//! with the rules that the marketplace services apply to them.
pub mod review;
pub mod schema_def;

pub use review::{Rating, Review};
pub use schema_def::{FieldMap, SchemaDefinition, SchemaField, SchemaFieldType};
pub mod payout;
pub use payout::{PayoutRecord, PayoutStatus};
pub mod install;
pub mod package;
pub use install::InstallRecord;
pub use package::{PricingModel, ScraperPackage, ScraperPackageMetadata, ScraperStatus};
pub mod service;
pub use service::MarketplaceError;
pub mod payout_service;
pub use payout_service::PayoutError;
pub mod review_service;
pub use review_service::ReviewError;
pub mod submission;
pub use submission::{SchemaValidationError, ScraperPackageSubmission};
pub mod ports;
pub use ports::{PayoutGatewayError, RepositoryError};
