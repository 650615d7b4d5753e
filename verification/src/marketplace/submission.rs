//! Package submissions: the form in which users submit scrapers to the
//! marketplace, the rules a submission must satisfy, and its conversion to a
//! package. Prices are in cents.
use crate::marketplace::package::{PricingModel, ScraperPackage, ScraperStatus};
use crate::marketplace::schema_def::{FieldMap, SchemaDefinition};
use crate::marketplace::service::{name_char_ok, name_chars_ok};
use vstd::prelude::*;
use vstd::string::*;

verus! {

/// Errors that can occur during schema validation.
#[derive(Debug, Clone)]
pub enum SchemaValidationError {
    InvalidJson(String),
    MissingField(String),
    InvalidFieldValue(String, String),
    ValidationFailed(String),
}

/// A schema validation error with its texts as sequences of characters.
pub enum SchemaErrorView {
    InvalidJson(Seq<char>),
    MissingField(Seq<char>),
    InvalidFieldValue(Seq<char>, Seq<char>),
    ValidationFailed(Seq<char>),
}

impl View for SchemaValidationError {
    type V = SchemaErrorView;

    open spec fn view(&self) -> SchemaErrorView {
        match self {
            SchemaValidationError::InvalidJson(m) => SchemaErrorView::InvalidJson(m@),
            SchemaValidationError::MissingField(f) => SchemaErrorView::MissingField(f@),
            SchemaValidationError::InvalidFieldValue(f, m) => SchemaErrorView::InvalidFieldValue(
                f@,
                m@,
            ),
            SchemaValidationError::ValidationFailed(m) => SchemaErrorView::ValidationFailed(m@),
        }
    }
}

/// The message of a schema validation error.
pub open spec fn schema_error_text(e: SchemaErrorView) -> Seq<char> {
    match e {
        SchemaErrorView::InvalidJson(m) => "Invalid JSON: "@ + m,
        SchemaErrorView::MissingField(f) => "Missing required field: "@ + f,
        SchemaErrorView::InvalidFieldValue(f, m) => "Invalid field value for '"@ + f + "': "@ + m,
        SchemaErrorView::ValidationFailed(m) => "Schema validation failed: "@ + m,
    }
}

impl SchemaValidationError {
    /// The error's message.
    pub fn to_string(&self) -> (r: String)
        ensures
            r@ == schema_error_text(self@),
    {
        match self {
            SchemaValidationError::InvalidJson(m) => String::from_str("Invalid JSON: ").concat(
                m.as_str(),
            ),
            SchemaValidationError::MissingField(f) => String::from_str(
                "Missing required field: ",
            ).concat(f.as_str()),
            SchemaValidationError::InvalidFieldValue(f, m) => {
                let s = String::from_str("Invalid field value for '").concat(f.as_str());
                let s = s.concat("': ");
                s.concat(m.as_str())
            },
            SchemaValidationError::ValidationFailed(m) => String::from_str(
                "Schema validation failed: ",
            ).concat(m.as_str()),
        }
    }
}

/// The output schema of a submission: the named fields read from the
/// submitted JSON object, or the reason that the object could not be read as
/// fields.
#[derive(Debug)]
pub struct SchemaDefinitionJson {
    pub output: Result<FieldMap, String>,
}

/// A scraper package as users submit it to the marketplace.
#[derive(Debug)]
pub struct ScraperPackageSubmission {
    /// Package name (lowercase, hyphen-separated)
    pub name: String,
    /// Semantic version
    pub version: String,
    /// Author username
    pub author: String,
    /// Price in US cents (None or 0 for free)
    pub price: Option<u64>,
    /// List of supported sites/domains
    pub sites: Vec<String>,
    /// Human-readable description
    pub description: String,
    /// Output schema definition
    pub schema: SchemaDefinitionJson,
    /// Optional repository URL
    pub repository_url: Option<String>,
    /// Optional documentation URL
    pub documentation_url: Option<String>,
    /// Optional tags for discovery
    pub tags: Vec<String>,
}

/// Whether `semver::Version::parse` accepts a text as a version.
pub uninterp spec fn semver_accepts(text: Seq<char>) -> bool;

/// Asks `semver::Version::parse` whether `text` is a semantic version
/// (`MAJOR.MINOR.PATCH` with optional pre-release and build parts). The answer
/// is named [`semver_accepts`]; the contract also states that the empty text
/// is refused, the parser's first check. Which other texts it accepts is left
/// to that name.
#[verifier::external_body]
fn parses_as_semver(text: &str) -> (r: bool)
    ensures
        r == semver_accepts(text@),
        text@.len() == 0 ==> !r,
{
    semver::Version::parse(text).is_ok()
}

/// The pricing of a submitted price: paid when a positive price is given,
/// free otherwise.
pub open spec fn pricing_of(price: Option<u64>) -> PricingModel {
    match price {
        Some(p) => if p > 0 {
            PricingModel::Paid { price_cents: p }
        } else {
            PricingModel::Free
        },
        None => PricingModel::Free,
    }
}

/// What is wrong with a submission, if anything: the first failing rule, in
/// the order they are checked. `version_valid` tells whether the version is a
/// semantic version.
pub open spec fn submission_fault(s: ScraperPackageSubmission, version_valid: bool) -> Option<
    SchemaErrorView,
> {
    if s.name@.len() == 0 {
        Some(SchemaErrorView::MissingField("name"@))
    } else if !(forall|i: int| 0 <= i < s.name@.len() ==> #[trigger] name_char_ok(s.name@[i])) {
        Some(
            SchemaErrorView::InvalidFieldValue("name"@, "must be lowercase with hyphens only"@),
        )
    } else if s.version@.len() == 0 {
        Some(SchemaErrorView::MissingField("version"@))
    } else if !version_valid {
        Some(
            SchemaErrorView::InvalidFieldValue(
                "version"@,
                "must be in valid semver format (e.g., 1.0.0)"@,
            ),
        )
    } else if s.author@.len() == 0 {
        Some(SchemaErrorView::MissingField("author"@))
    } else if s.sites@.len() == 0 {
        Some(SchemaErrorView::MissingField("sites"@))
    } else if s.description@.len() == 0 {
        Some(SchemaErrorView::MissingField("description"@))
    } else {
        match s.schema.output {
            Ok(_) => None,
            Err(e) => Some(SchemaErrorView::InvalidJson("Failed to parse output schema: "@ + e@)),
        }
    }
}

/// `p` is the package that a valid submission `s` becomes: its fields taken
/// over, priced by [`pricing_of`], pending review, with fresh metadata.
pub open spec fn converted_from(p: ScraperPackage, s: ScraperPackageSubmission) -> bool {
    &&& p.name == s.name
    &&& p.version == s.version
    &&& p.author == s.author
    &&& p.pricing == pricing_of(s.price)
    &&& p.sites == s.sites
    &&& p.description == s.description
    &&& (s.schema.output matches Ok(f) && p.schema == (SchemaDefinition { output: f }))
    &&& p.status == ScraperStatus::PendingReview
    &&& p.metadata.install_count == 0
    &&& p.metadata.rating_total == 0
    &&& p.metadata.review_count == 0
    &&& p.metadata.published_at is None
    &&& p.repository_url == s.repository_url
    &&& p.documentation_url == s.documentation_url
    &&& p.tags == s.tags
}

/// The outcome of converting submission `s`: the error of its first fault,
/// or a package converted from it.
pub open spec fn conversion_outcome(
    s: ScraperPackageSubmission,
    version_valid: bool,
    r: Result<ScraperPackage, SchemaValidationError>,
) -> bool {
    match r {
        Ok(p) => submission_fault(s, version_valid) is None && converted_from(p, s),
        Err(e) => submission_fault(s, version_valid) == Some(e@),
    }
}

impl ScraperPackageSubmission {
    /// Validates the submission and converts it to a package; whether the
    /// version is a semantic version is asked of `semver`.
    pub fn validate_and_convert(self) -> (r: Result<ScraperPackage, SchemaValidationError>)
        ensures
            conversion_outcome(self, semver_accepts(self.version@), r),
    {
        let version_valid = parses_as_semver(self.version.as_str());
        self.convert_checked(version_valid)
    }

    /// Validates the submission and converts it to a package, given whether
    /// its version is a semantic version.
    pub fn convert_checked(self, version_valid: bool) -> (r: Result<
        ScraperPackage,
        SchemaValidationError,
    >)
        ensures
            conversion_outcome(self, version_valid, r),
    {
        if self.name.as_str().is_empty() {
            return Err(SchemaValidationError::MissingField(String::from_str("name")));
        }
        if !name_chars_ok(self.name.as_str()) {
            return Err(
                SchemaValidationError::InvalidFieldValue(
                    String::from_str("name"),
                    String::from_str("must be lowercase with hyphens only"),
                ),
            );
        }
        if self.version.as_str().is_empty() {
            return Err(SchemaValidationError::MissingField(String::from_str("version")));
        }
        if !version_valid {
            return Err(
                SchemaValidationError::InvalidFieldValue(
                    String::from_str("version"),
                    String::from_str("must be in valid semver format (e.g., 1.0.0)"),
                ),
            );
        }
        if self.author.as_str().is_empty() {
            return Err(SchemaValidationError::MissingField(String::from_str("author")));
        }
        if self.sites.len() == 0 {
            return Err(SchemaValidationError::MissingField(String::from_str("sites")));
        }
        if self.description.as_str().is_empty() {
            return Err(SchemaValidationError::MissingField(String::from_str("description")));
        }
        let ScraperPackageSubmission {
            name,
            version,
            author,
            price,
            sites,
            description,
            schema,
            repository_url,
            documentation_url,
            tags,
        } = self;
        let output = match schema.output {
            Ok(f) => f,
            Err(e) => {
                return Err(
                    SchemaValidationError::InvalidJson(
                        String::from_str("Failed to parse output schema: ").concat(e.as_str()),
                    ),
                );
            },
        };
        let pricing = match price {
            Some(p) => if p > 0 {
                PricingModel::Paid { price_cents: p }
            } else {
                PricingModel::Free
            },
            None => PricingModel::Free,
        };
        let mut package = ScraperPackage::new(
            name,
            version,
            author,
            sites,
            description,
            SchemaDefinition { output },
        );
        package.pricing = pricing;
        package.status = ScraperStatus::PendingReview;
        package.repository_url = repository_url;
        package.documentation_url = documentation_url;
        package.tags = tags;
        Ok(package)
    }
}

/// `s` is the submission that describes package `p`: its fields, its price
/// if it is paid, and its schema's fields.
pub open spec fn describes(s: ScraperPackageSubmission, p: ScraperPackage) -> bool {
    &&& s.name == p.name
    &&& s.version == p.version
    &&& s.author == p.author
    &&& s.price == (match p.pricing {
        PricingModel::Free => None,
        PricingModel::Paid { price_cents } => Some(price_cents),
    })
    &&& s.sites == p.sites
    &&& s.description == p.description
    &&& s.schema.output == Ok::<FieldMap, String>(p.schema.output)
    &&& s.repository_url == p.repository_url
    &&& s.documentation_url == p.documentation_url
    &&& s.tags == p.tags
}

/// The submission that describes a package.
pub fn submission_of(package: ScraperPackage) -> (s: ScraperPackageSubmission)
    ensures
        describes(s, package),
{
    let price = match package.pricing {
        PricingModel::Free => None,
        PricingModel::Paid { price_cents } => Some(price_cents),
    };
    ScraperPackageSubmission {
        name: package.name,
        version: package.version,
        author: package.author,
        price,
        sites: package.sites,
        description: package.description,
        schema: SchemaDefinitionJson { output: Ok(package.schema.output) },
        repository_url: package.repository_url,
        documentation_url: package.documentation_url,
        tags: package.tags,
    }
}

/// A package accepted from a submission, written back as a submission, is
/// accepted again, with the same contents: name, version, author, pricing,
/// sites, description, schema, URLs and tags.
pub proof fn law_submission_round_trip(
    s: ScraperPackageSubmission,
    version_valid: bool,
    p: ScraperPackage,
    t: ScraperPackageSubmission,
    r: Result<ScraperPackage, SchemaValidationError>,
)
    requires
        conversion_outcome(s, version_valid, Ok(p)),
        describes(t, p),
        conversion_outcome(t, version_valid, r),
    ensures
        r matches Ok(q) && {
            &&& q.name == p.name
            &&& q.version == p.version
            &&& q.author == p.author
            &&& q.pricing == p.pricing
            &&& q.sites == p.sites
            &&& q.description == p.description
            &&& q.schema == p.schema
            &&& q.repository_url == p.repository_url
            &&& q.documentation_url == p.documentation_url
            &&& q.tags == p.tags
        },
{
}

} // verus!
