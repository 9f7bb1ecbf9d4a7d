//! GitHub App installations and the trait every webhook event implements
//! to expose the installation it belongs to.

use vstd::prelude::*;

use crate::datetime::Timestamp;
use crate::events::EventType;
use crate::user::User;

verus! {

/// A webhook event that may belong to a GitHub App installation.
pub trait AppEvent {
    /// The app installation ID the event carries, if any.
    spec fn installation_spec(&self) -> Option<u64>;

    /// Returns the installation ID for the event.
    fn installation(&self) -> (r: Option<u64>)
        ensures
            r == self.installation_spec(),
    ;
}

#[derive(Debug, Copy, Clone, Eq, PartialEq, Ord, PartialOrd, Hash)]
pub enum Permission {
    Read,
    Write,
}

/// Permissions given to the app installation.
#[derive(Debug, Clone, Eq, PartialEq, Ord, PartialOrd, Hash)]
pub struct InstallationPermissions {
    pub issues: Option<Permission>,
    pub contents: Option<Permission>,
    pub pull_requests: Option<Permission>,
    pub metadata: Option<Permission>,
}

/// Information about an app installation.
#[derive(Debug, Clone, Eq, PartialEq, Ord, PartialOrd, Hash)]
pub struct Installation {
    pub id: u64,
    pub account: User,
    pub repository_selection: String,
    pub access_tokens_url: String,
    pub repositories_url: String,
    pub html_url: String,
    pub app_id: u64,
    pub target_id: u64,
    pub target_type: String,
    pub permissions: InstallationPermissions,
    pub events: Vec<EventType>,
    pub created_at: Timestamp,
    pub updated_at: Timestamp,
    pub single_file_name: Option<String>,
}

/// Information about an app.
#[derive(Debug, Clone, Eq, PartialEq, Ord, PartialOrd, Hash)]
pub struct App {
    pub id: u64,
    pub owner: User,
    pub name: String,
    pub description: String,
    pub external_url: String,
    pub html_url: String,
    pub created_at: Timestamp,
    pub updated_at: Timestamp,
}

} // verus!
