//! Workflow runs, jobs, steps, and deployments, as they appear in webhook
//! payloads.

use vstd::prelude::*;

use crate::app::InstallationPermissions;
use crate::datetime::Timestamp;
use crate::user::User;

verus! {

#[derive(Debug, Copy, Clone, Eq, PartialEq, Ord, PartialOrd, Hash)]
pub enum WorkflowCompletion {
    Success,
    Failure,
    Skipped,
    Cancelled,
    ActionRequired,
    Neutral,
    TimedOut,
}

#[derive(Debug, Copy, Clone, Eq, PartialEq, Ord, PartialOrd, Hash)]
pub enum WorkflowStatus {
    Queued,
    InProgress,
    Waiting,
    Completed,
}

#[derive(Debug, Copy, Clone, Eq, PartialEq, Ord, PartialOrd, Hash)]
pub enum WorkflowStepConclusion {
    Success,
    Failure,
    Skipped,
    Cancelled,
}

#[derive(Debug, Copy, Clone, Eq, PartialEq, Ord, PartialOrd, Hash)]
pub enum WorkflowStepStatus {
    Queued,
    InProgress,
    Completed,
    Failure,
    Pending,
}

#[derive(Debug, Clone, Eq, PartialEq, Ord, PartialOrd, Hash)]
pub struct WorkflowStep {
    pub completed_at: Option<Timestamp>,
    pub name: String,
    pub number: u64,
    pub started_at: Option<Timestamp>,
    pub conclusion: Option<WorkflowStepConclusion>,
    pub status: Option<WorkflowStepStatus>,
}

#[derive(Debug, Clone, Eq, PartialEq, Ord, PartialOrd, Hash)]
pub struct WorkflowJob {
    pub check_run_url: String,
    pub completed_at: Option<Timestamp>,
    pub conclusion: Option<WorkflowCompletion>,
    pub created_at: Timestamp,
    pub head_sha: String,
    pub html_url: String,
    pub id: u64,
    pub labels: Vec<String>,
    pub name: String,
    pub node_id: String,
    pub run_attempt: u64,
    pub run_id: u64,
    pub run_url: String,
    /// The ID of the runner group that is running this job. This will be
    /// absent as long as the job is queued.
    pub runner_group_id: Option<u64>,
    /// The name of the runner group that is running this job. This will be
    /// absent as long as the job is queued.
    pub runner_group_name: Option<String>,
    /// The ID of the runner that is running this job. This will be absent
    /// as long as the job is queued.
    pub runner_id: Option<u64>,
    /// The name of the runner that is running this job. This will be
    /// absent as long as the job is queued.
    pub runner_name: Option<String>,
    pub started_at: Timestamp,
    /// The current status of the job.
    pub status: WorkflowStatus,
    pub head_branch: Option<String>,
    pub workflow_name: Option<String>,
    pub steps: Vec<WorkflowStep>,
    pub url: String,
}

#[derive(Debug, Clone, Eq, PartialEq, Ord, PartialOrd, Hash)]
pub struct DeploymentPerformedViaGithubApp {
    pub id: u64,
    pub slug: String,
    pub node_id: String,
    pub owner: User,
    pub name: String,
    pub description: Option<String>,
    pub external_url: String,
    pub html_url: String,
    pub created_at: Timestamp,
    pub updated_at: Timestamp,
    pub permissions: InstallationPermissions,
    pub events: Vec<String>,
    pub installation_counts: u64,
    pub client_id: String,
    pub client_secret: String,
    pub webhook_secret: Option<String>,
    pub pem: String,
}

#[derive(Debug, Clone, Eq, PartialEq, Ord, PartialOrd, Hash)]
pub struct Deployment {
    pub url: String,
    pub id: u64,
    pub node_id: String,
    pub sha: String,
    pub git_ref: String,
    pub task: String,
    pub payload: String,
    pub original_environment: String,
    pub environment: String,
    pub description: Option<String>,
    pub creator: User,
    pub created_at: Timestamp,
    pub updated_at: Timestamp,
    pub statuses_url: String,
    pub repository_url: String,
    pub transient_environment: String,
    pub performed_via_github_app: DeploymentPerformedViaGithubApp,
}

} // verus!
