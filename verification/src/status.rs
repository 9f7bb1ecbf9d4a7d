//! Commit statuses, as they appear in webhook payloads.

use vstd::prelude::*;

use crate::oid::Oid;

verus! {

#[derive(Debug, Copy, Clone, Eq, PartialEq, Ord, PartialOrd, Hash)]
pub enum StatusState {
    Error,
    Failure,
    Pending,
    Success,
}

#[derive(Debug, Clone, Eq, PartialEq, Ord, PartialOrd, Hash)]
pub struct StatusCommit {
    pub sha: Oid,
    pub node_id: String,
    pub url: String,
    pub html_url: String,
    pub comments_url: String,
}

} // verus!
