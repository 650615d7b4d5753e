//! Marketplace service rules: what a package must satisfy to be accepted, and
//! how submitting, updating, approving, rejecting, deprecating and installing
//! change a package once the repository has been read.
use crate::marketplace::install::InstallRecord;
use crate::marketplace::package::{ScraperPackage, ScraperStatus};
use crate::text::{chars_of, is_ascii_digit, is_ascii_lowercase, is_digit, is_lowercase};
use crate::clock::{now_millis, uuid_text, uuid_text_of};
use crate::marketplace::ports::{repository_error_text, RepositoryError};
use vstd::prelude::*;
use vstd::string::*;

verus! {

/// Errors that can occur in marketplace operations.
#[derive(Debug, Clone)]
pub enum MarketplaceError {
    PackageNotFound(u128),
    PackageAlreadyExists(String),
    PackageNotAvailable(u128),
    InvalidPackage(String),
    PermissionDenied(String),
    RepositoryError(String),
}

/// The message of a marketplace error.
pub open spec fn marketplace_error_text(e: MarketplaceError) -> Seq<char> {
    match e {
        MarketplaceError::PackageNotFound(id) => "Package not found: "@ + uuid_text_of(id),
        MarketplaceError::PackageAlreadyExists(n) => "Package already exists: "@ + n@,
        MarketplaceError::PackageNotAvailable(id) => "Package is not available: "@ + uuid_text_of(id),
        MarketplaceError::InvalidPackage(m) => "Invalid package: "@ + m@,
        MarketplaceError::PermissionDenied(m) => "Permission denied: "@ + m@,
        MarketplaceError::RepositoryError(m) => "Repository error: "@ + m@,
    }
}

impl MarketplaceError {
    /// The error's message.
    pub fn to_string(&self) -> (r: String)
        ensures
            r@ == marketplace_error_text(*self),
    {
        match self {
            MarketplaceError::PackageNotFound(id) => String::from_str("Package not found: ").concat(
                uuid_text(*id).as_str(),
            ),
            MarketplaceError::PackageAlreadyExists(n) => String::from_str(
                "Package already exists: ",
            ).concat(n.as_str()),
            MarketplaceError::PackageNotAvailable(id) => String::from_str(
                "Package is not available: ",
            ).concat(uuid_text(*id).as_str()),
            MarketplaceError::InvalidPackage(m) => String::from_str("Invalid package: ").concat(
                m.as_str(),
            ),
            MarketplaceError::PermissionDenied(m) => String::from_str("Permission denied: ").concat(
                m.as_str(),
            ),
            MarketplaceError::RepositoryError(m) => String::from_str("Repository error: ").concat(
                m.as_str(),
            ),
        }
    }
}

/// A character allowed in a package name: a lowercase ASCII letter, a digit or `-`.
pub open spec fn name_char_ok(c: char) -> bool {
    is_ascii_lowercase(c) || c == '-' || is_ascii_digit(c)
}

/// What is wrong with a package, if anything: the message of the first
/// failing rule.
pub open spec fn package_problem(
    name: Seq<char>,
    version: Seq<char>,
    site_count: nat,
    description: Seq<char>,
) -> Option<Seq<char>> {
    if name.len() == 0 {
        Some("Package name cannot be empty"@)
    } else if !(forall|i: int| 0 <= i < name.len() ==> #[trigger] name_char_ok(name[i])) {
        Some("Package name must be lowercase with hyphens only"@)
    } else if version.len() == 0 {
        Some("Version cannot be empty"@)
    } else if site_count == 0 {
        Some("At least one site must be specified"@)
    } else if description.len() == 0 {
        Some("Description cannot be empty"@)
    } else {
        None
    }
}

/// The problem of a package, read from its fields.
pub open spec fn problem_of(p: ScraperPackage) -> Option<Seq<char>> {
    package_problem(p.name@, p.version@, p.sites@.len(), p.description@)
}

/// Whether every character of a name is allowed.
pub fn name_chars_ok(name: &str) -> (r: bool)
    ensures
        r == (forall|i: int| 0 <= i < name@.len() ==> #[trigger] name_char_ok(name@[i])),
{
    let chars = chars_of(name);
    let mut i: usize = 0;
    while i < chars.len()
        invariant
            i <= chars.len(),
            chars@ == name@,
            forall|j: int| 0 <= j < i ==> #[trigger] name_char_ok(chars@[j]),
        decreases chars.len() - i,
    {
        let c = chars[i];
        if !(is_lowercase(c) || c == '-' || is_digit(c)) {
            assert(!name_char_ok(chars@[i as int]));
            return false;
        }
        i = i + 1;
    }
    true
}

/// Validates a package before submission: a non-empty name of lowercase
/// letters, digits and hyphens, a version, at least one site and a description.
pub fn validate_package(package: &ScraperPackage) -> (r: Result<(), MarketplaceError>)
    ensures
        r is Ok ==> package.name@.len() > 0 && forall|i: int|
            0 <= i < package.name@.len() ==> ('a' <= #[trigger] package.name@[i] <= 'z') || (
            '0' <= package.name@[i] <= '9') || package.name@[i] == '-',
        match r {
            Ok(_) => problem_of(*package) is None,
            Err(e) => problem_of(*package) matches Some(m) && e matches MarketplaceError::InvalidPackage(s) && s@ == m,
        },
{
    if package.name.as_str().is_empty() {
        return Err(
            MarketplaceError::InvalidPackage(String::from_str("Package name cannot be empty")),
        );
    }
    if !name_chars_ok(package.name.as_str()) {
        return Err(
            MarketplaceError::InvalidPackage(
                String::from_str("Package name must be lowercase with hyphens only"),
            ),
        );
    }
    if package.version.as_str().is_empty() {
        return Err(MarketplaceError::InvalidPackage(String::from_str("Version cannot be empty")));
    }
    if package.sites.len() == 0 {
        return Err(
            MarketplaceError::InvalidPackage(String::from_str("At least one site must be specified")),
        );
    }
    if package.description.as_str().is_empty() {
        return Err(
            MarketplaceError::InvalidPackage(String::from_str("Description cannot be empty")),
        );
    }
    proof {
        law_accepted_names_are_lowercase(
            package.name@,
            package.version@,
            package.sites@.len(),
            package.description@,
        );
    }
    Ok(())
}

/// Accepts a validated submission once the repository has told whether its
/// name is taken: a taken name is refused, otherwise the package starts
/// pending review.
pub fn accept_submission(package: ScraperPackage, name_taken: bool) -> (r: Result<
    ScraperPackage,
    MarketplaceError,
>)
    ensures
        name_taken ==> (r matches Err(MarketplaceError::PackageAlreadyExists(n)) && n == package.name),
        !name_taken ==> r == Ok::<ScraperPackage, MarketplaceError>(
            ScraperPackage { status: ScraperStatus::PendingReview, ..package },
        ),
{
    if name_taken {
        return Err(MarketplaceError::PackageAlreadyExists(package.name));
    }
    let mut package = package;
    package.status = ScraperStatus::PendingReview;
    Ok(package)
}

/// Whether `author` wrote `package`.
fn is_author(package: &ScraperPackage, author: &str) -> (r: bool)
    ensures
        r == (package.author@ == author@),
{
    package.author == String::from_str(author)
}

/// Accepts a new version of the package `existing` (stored under `id`): only
/// its author may update it, the new version must be valid, and it keeps the
/// id and goes back to review.
pub fn accept_update(
    existing: &ScraperPackage,
    id: u128,
    author: &str,
    package: ScraperPackage,
) -> (r: Result<ScraperPackage, MarketplaceError>)
    ensures
        existing.author@ != author@ ==> (r matches Err(MarketplaceError::PermissionDenied(m))
            && m@ == "Only the author can update a package"@),
        existing.author@ == author@ && problem_of(package) is Some ==> (r matches Err(
            MarketplaceError::InvalidPackage(m),
        ) && problem_of(package) == Some(m@)),
        existing.author@ == author@ && problem_of(package) is None ==> r == Ok::<
            ScraperPackage,
            MarketplaceError,
        >(ScraperPackage { id, status: ScraperStatus::PendingReview, ..package }),
{
    if !is_author(existing, author) {
        return Err(
            MarketplaceError::PermissionDenied(String::from_str("Only the author can update a package")),
        );
    }
    match validate_package(&package) {
        Err(e) => Err(e),
        Ok(()) => {
            let mut package = package;
            package.id = id;
            package.status = ScraperStatus::PendingReview;
            Ok(package)
        },
    }
}

/// Approves a package: it is published, and the time of publication is recorded.
pub fn approve(package: ScraperPackage) -> (r: ScraperPackage)
    ensures
        r.status == ScraperStatus::Published,
        r.metadata.published_at is Some,
        r == (ScraperPackage {
            status: ScraperStatus::Published,
            metadata: r.metadata,
            ..package
        }),
        r.metadata == (crate::marketplace::package::ScraperPackageMetadata {
            published_at: r.metadata.published_at,
            ..package.metadata
        }),
{
    let mut package = package;
    package.status = ScraperStatus::Published;
    package.metadata.published_at = Some(now_millis());
    package
}

/// Rejects a package submission.
pub fn reject(package: ScraperPackage) -> (r: ScraperPackage)
    ensures
        r == (ScraperPackage { status: ScraperStatus::Rejected, ..package }),
{
    let mut package = package;
    package.status = ScraperStatus::Rejected;
    package
}

/// Deprecates a package; only its author may.
pub fn deprecate(package: ScraperPackage, author: &str) -> (r: Result<
    ScraperPackage,
    MarketplaceError,
>)
    ensures
        package.author@ != author@ ==> (r matches Err(MarketplaceError::PermissionDenied(m))
            && m@ == "Only the author can deprecate a package"@),
        package.author@ == author@ ==> r == Ok::<ScraperPackage, MarketplaceError>(
            ScraperPackage { status: ScraperStatus::Deprecated, ..package },
        ),
{
    if !is_author(&package, author) {
        return Err(
            MarketplaceError::PermissionDenied(
                String::from_str("Only the author can deprecate a package"),
            ),
        );
    }
    let mut package = package;
    package.status = ScraperStatus::Deprecated;
    Ok(package)
}

/// Installs the package found under `package_id` for `user`: only a published
/// package can be installed, and the install records its version.
pub fn install_for(package_id: u128, package: &ScraperPackage, user: &str) -> (r: Result<
    InstallRecord,
    MarketplaceError,
>)
    ensures
        package.status != ScraperStatus::Published ==> r == Err::<InstallRecord, MarketplaceError>(
            MarketplaceError::PackageNotAvailable(package_id),
        ),
        package.status == ScraperStatus::Published ==> (r matches Ok(rec) && rec.package_id
            == package_id && rec.user@ == user@ && rec.version == package.version && rec.is_active
            && rec.uninstalled_at is None),
{
    if !package.is_available() {
        return Err(MarketplaceError::PackageNotAvailable(package_id));
    }
    Ok(InstallRecord::new(package_id, String::from_str(user), package.version.clone()))
}

/// A repository failure, as the marketplace reports it.
pub fn marketplace_repository_failure(e: &RepositoryError) -> (r: MarketplaceError)
    ensures
        r matches MarketplaceError::RepositoryError(m) && m@ == repository_error_text(*e),
{
    MarketplaceError::RepositoryError(e.to_string())
}

/// The package that a lookup by id found, or `PackageNotFound` for that id.
pub fn found_package(found: Option<ScraperPackage>, id: u128) -> (r: Result<
    ScraperPackage,
    MarketplaceError,
>)
    ensures
        match found {
            Some(p) => r == Ok::<ScraperPackage, MarketplaceError>(p),
            None => r == Err::<ScraperPackage, MarketplaceError>(
                MarketplaceError::PackageNotFound(id),
            ),
        },
{
    match found {
        Some(p) => Ok(p),
        None => Err(MarketplaceError::PackageNotFound(id)),
    }
}

/// The package that a lookup by name found; a missing one is reported as an
/// invalid package naming the name.
pub fn found_package_named(found: Option<ScraperPackage>, name: &str) -> (r: Result<
    ScraperPackage,
    MarketplaceError,
>)
    ensures
        match found {
            Some(p) => r == Ok::<ScraperPackage, MarketplaceError>(p),
            None => r matches Err(MarketplaceError::InvalidPackage(m)) && m@
                == "Package not found: "@ + name@,
        },
{
    match found {
        Some(p) => Ok(p),
        None => Err(
            MarketplaceError::InvalidPackage(String::from_str("Package not found: ").concat(name)),
        ),
    }
}

/// Uninstalls the install that a lookup found; with none, the package is
/// reported as not found.
pub fn uninstall_found(found: Option<InstallRecord>, package_id: u128) -> (r: Result<
    InstallRecord,
    MarketplaceError,
>)
    ensures
        match found {
            Some(rec) => r matches Ok(u) && !u.is_active && u.uninstalled_at is Some && u == (
            InstallRecord { is_active: false, uninstalled_at: u.uninstalled_at, ..rec }),
            None => r == Err::<InstallRecord, MarketplaceError>(
                MarketplaceError::PackageNotFound(package_id),
            ),
        },
{
    match found {
        Some(rec) => {
            let mut rec = rec;
            rec.uninstall();
            Ok(rec)
        },
        None => Err(MarketplaceError::PackageNotFound(package_id)),
    }
}

/// A package that validation accepts has a non-empty name whose every
/// character, as written, is an ASCII lowercase letter, a digit or `-`; a
/// non-empty name with any other character (an uppercase letter, a space) is
/// refused for it.
pub proof fn law_accepted_names_are_lowercase(
    name: Seq<char>,
    version: Seq<char>,
    site_count: nat,
    description: Seq<char>,
)
    ensures
        package_problem(name, version, site_count, description) is None ==> name.len() > 0
            && forall|i: int|
            0 <= i < name.len() ==> ('a' <= #[trigger] name[i] <= 'z') || ('0' <= name[i] <= '9')
                || name[i] == '-',
        name.len() > 0 && (exists|i: int|
            0 <= i < name.len() && !(('a' <= #[trigger] name[i] <= 'z') || ('0' <= name[i] <= '9')
                || name[i] == '-')) ==> package_problem(name, version, site_count, description)
            == Some("Package name must be lowercase with hyphens only"@),
{
    if package_problem(name, version, site_count, description) is None {
        assert forall|i: int| 0 <= i < name.len() implies ('a' <= #[trigger] name[i] <= 'z') || (
        '0' <= name[i] <= '9') || name[i] == '-' by {
            assert(name_char_ok(name[i]));
        }
    }
    if name.len() > 0 && (exists|i: int|
        0 <= i < name.len() && !(('a' <= #[trigger] name[i] <= 'z') || ('0' <= name[i] <= '9')
            || name[i] == '-')) {
        let i = choose|i: int|
            0 <= i < name.len() && !(('a' <= #[trigger] name[i] <= 'z') || ('0' <= name[i] <= '9')
                || name[i] == '-');
        assert(!name_char_ok(name[i]));
    }
}

} // verus!
