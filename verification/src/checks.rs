//! Check runs and check suites, as they appear in webhook payloads.

use vstd::prelude::*;

use crate::app::App;
use crate::datetime::Timestamp;
use crate::oid::Oid;

verus! {

#[derive(Debug, Copy, Clone, Eq, PartialEq, Ord, PartialOrd, Hash)]
pub enum CheckRunStatus {
    Queued,
    InProgress,
    Completed,
}

#[derive(Debug, Copy, Clone, Eq, PartialEq, Ord, PartialOrd, Hash)]
pub enum Conclusion {
    Success,
    Failure,
    Neutral,
    Cancelled,
    TimedOut,
    ActionRequired,
}

#[derive(Debug, Copy, Clone, Eq, PartialEq, Ord, PartialOrd, Hash)]
pub enum AnnotationLevel {
    Notice,
    Warning,
    Failure,
}

#[derive(Debug, Clone, Eq, PartialEq, Ord, PartialOrd, Hash)]
pub struct Annotation {
    /// The path of the file to add an annotation to.
    pub path: String,
    /// The start line of the annotation.
    pub start_line: u32,
    /// The end line of the annotation.
    pub end_line: u32,
    /// The start column of the annotation. Annotations only support
    /// columns on a single line.
    pub start_column: Option<u32>,
    /// The end column of the annotation.
    pub end_column: Option<u32>,
    /// The level of the annotation.
    pub annotation_level: AnnotationLevel,
    /// A short description of the feedback for these lines of code.
    pub message: String,
    /// The title that represents the annotation.
    pub title: Option<String>,
    /// Raw details about this annotation.
    pub raw_details: Option<String>,
}

#[derive(Debug, Clone, Eq, PartialEq, Ord, PartialOrd, Hash)]
pub struct Image {
    /// The alternative text for the image.
    pub alt: String,
    /// The full URL of the image.
    pub image_url: String,
    /// A short image description.
    pub caption: Option<String>,
}

#[derive(Debug, Clone, Eq, PartialEq, Ord, PartialOrd, Hash)]
pub struct Output {
    /// The title of the check run.
    pub title: String,
    /// The summary of the check run.
    pub summary: String,
    /// The details of the check run.
    pub text: Option<String>,
    /// Annotations on specific lines of code.
    pub annotations: Option<Vec<Annotation>>,
    /// Images shown in the pull request UI.
    pub images: Option<Vec<Image>>,
}

#[derive(Debug, Clone, Eq, PartialEq, Ord, PartialOrd, Hash)]
pub struct CheckRunAction {
    /// The text to be displayed on a button in the web UI.
    pub label: String,
    /// A short explanation of what this action would do.
    pub description: String,
    /// A reference for the action on the integrator's system.
    pub identifier: String,
}

#[derive(Debug, Clone, Eq, PartialEq, Ord, PartialOrd, Hash)]
pub struct CheckSuiteId {
    pub id: u64,
}

/// A repo associated with a `CheckRun`.
#[derive(Debug, Clone, Eq, PartialEq, Ord, PartialOrd, Hash)]
pub struct CheckRunRepo {
    pub id: u64,
    pub url: String,
    pub name: String,
}

/// A commit associated with a `CheckRun`.
#[derive(Debug, Clone, Eq, PartialEq, Ord, PartialOrd, Hash)]
pub struct CheckRunCommit {
    pub git_ref: String,
    pub sha: Oid,
    pub repo: CheckRunRepo,
}

/// A pull request associated with a `CheckRun`.
#[derive(Debug, Clone, Eq, PartialEq, Ord, PartialOrd, Hash)]
pub struct CheckRunPullRequest {
    pub url: String,
    pub id: u64,
    pub number: u64,
    pub head: CheckRunCommit,
    pub base: CheckRunCommit,
}

#[derive(Debug, Clone, Eq, PartialEq, Ord, PartialOrd, Hash)]
pub struct CheckRun {
    /// The ID of the check run.
    pub id: u64,
    /// The name of the check run.
    pub name: String,
    /// The SHA of the commit the check runs on.
    pub head_sha: Oid,
    /// A reference for the run on the integrator's system.
    pub external_id: String,
    pub url: String,
    pub html_url: String,
    /// The current status.
    pub status: CheckRunStatus,
    /// `None` until the check run has a `Completed` status.
    pub conclusion: Option<Conclusion>,
    /// The time that the check run began.
    pub started_at: Option<Timestamp>,
    /// The time the check completed.
    pub completed_at: Option<Timestamp>,
    pub output: Option<Output>,
    pub check_suite: CheckSuiteId,
    pub app: App,
    pub pull_requests: Vec<CheckRunPullRequest>,
    /// Possible further actions the integrator can perform, which a user
    /// may trigger.
    pub actions: Option<Vec<CheckRunAction>>,
}

#[derive(Debug, Clone, Eq, PartialEq, Ord, PartialOrd, Hash)]
pub struct CheckSuite {
    pub id: u64,
    /// The head branch name the changes are on; `None` when the head
    /// branch is in a forked repository.
    pub head_branch: Option<String>,
    /// The SHA of the most recent commit for this check suite.
    pub head_sha: Oid,
    /// The summary status for all check runs that are part of the suite.
    pub status: CheckRunStatus,
    /// The summary conclusion; `None` until the status is `Completed`.
    pub conclusion: Option<Conclusion>,
    /// URL that points to the check suite API resource.
    pub url: String,
    /// The commit SHA of the previous commit; the all-zero identifier on a
    /// new branch.
    pub before: Oid,
    /// The commit SHA of the new commit.
    pub after: Oid,
    /// Pull requests that match this check suite.
    pub pull_requests: Vec<CheckRunPullRequest>,
    pub app: App,
}

} // verus!
