//! Commits and branches, as the REST API returns them.

use vstd::prelude::*;

use crate::oid::Oid;

verus! {

#[derive(Debug, Clone, Eq, PartialEq, Ord, PartialOrd, Hash)]
pub struct ApiCommit {
    pub sha: Oid,
    pub url: String,
}

#[derive(Debug, Clone, Eq, PartialEq, Ord, PartialOrd, Hash)]
pub struct Branch {
    pub name: String,
    pub commit: ApiCommit,
    pub protected: bool,
}

} // verus!
