//! Install tracking entity.
use crate::clock::{new_id, now_millis};
use vstd::prelude::*;

verus! {

/// Record of a scraper installation.
#[derive(Debug, Clone)]
pub struct InstallRecord {
    /// Unique identifier
    pub id: u128,
    /// ID of the installed package
    pub package_id: u128,
    /// Username of the installer
    pub user: String,
    /// Version installed
    pub version: String,
    /// Date of installation (milliseconds since the Unix epoch)
    pub installed_at: i64,
    /// Whether the install is currently active
    pub is_active: bool,
    /// Date of uninstallation, if any (milliseconds since the Unix epoch)
    pub uninstalled_at: Option<i64>,
}

impl InstallRecord {
    /// Creates a new, active install record.
    pub fn new(package_id: u128, user: String, version: String) -> (r: Self)
        ensures
            r.package_id == package_id,
            r.user == user,
            r.version == version,
            r.is_active,
            r.uninstalled_at is None,
    {
        InstallRecord {
            id: new_id(),
            package_id,
            user,
            version,
            installed_at: now_millis(),
            is_active: true,
            uninstalled_at: None,
        }
    }

    /// Marks the installation as uninstalled, recording when.
    pub fn uninstall(&mut self)
        ensures
            !final(self).is_active,
            final(self).uninstalled_at is Some,
            *final(self) == (InstallRecord {
                is_active: false,
                uninstalled_at: final(self).uninstalled_at,
                ..*old(self)
            }),
    {
        self.is_active = false;
        self.uninstalled_at = Some(now_millis());
    }
}

} // verus!
