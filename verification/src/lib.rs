//! A typed data model for GitHub webhook payloads, together with verified
//! codecs for the two scalar wire types: 20-byte object identifiers (hex or
//! raw bytes on the wire) and UTC timestamps (RFC 3339 strings or Unix epoch
//! seconds on the wire).

pub mod app;
pub mod calendar;
pub mod checks;
pub mod codec;
pub mod datetime;
pub mod decimal;
pub mod entreprise;
pub mod error;
pub mod events;
pub mod git;
pub mod oid;
pub mod org;
pub mod previews;
pub mod render;
pub mod repo;
pub mod status;
pub mod user;
pub mod workflow;

pub use app::App;
pub use app::AppEvent;
pub use app::Installation;
pub use app::InstallationPermissions;
pub use app::Permission;
pub use checks::Annotation;
pub use checks::AnnotationLevel;
pub use checks::CheckRun;
pub use checks::CheckRunAction;
pub use checks::CheckRunCommit;
pub use checks::CheckRunPullRequest;
pub use checks::CheckRunRepo;
pub use checks::CheckRunStatus;
pub use checks::CheckSuite;
pub use checks::CheckSuiteId;
pub use checks::Conclusion;
pub use checks::Image;
pub use checks::Output;
pub use codec::RawScalar;
pub use codec::TransportFormat;
pub use datetime::Timestamp;
pub use entreprise::Entreprise;
pub use error::MalformedInput;
pub use events::AppHook;
pub use events::ChangeFrom;
pub use events::CheckRunEvent;
pub use events::CheckRunEventAction;
pub use events::CheckSuiteEvent;
pub use events::CheckSuiteEventAction;
pub use events::CommitCommentAction;
pub use events::CommitCommentEvent;
pub use events::CreateEvent;
pub use events::CreateRefType;
pub use events::DeleteEvent;
pub use events::DeleteRefType;
pub use events::Event;
pub use events::EventType;
pub use events::GitHubAppAuthorizationAction;
pub use events::GitHubAppAuthorizationEvent;
pub use events::GollumEvent;
pub use events::Hook;
pub use events::HookConfig;
pub use events::InstallationAction;
pub use events::InstallationEvent;
pub use events::InstallationId;
pub use events::InstallationRepositoriesAction;
pub use events::InstallationRepositoriesEvent;
pub use events::IntegrationInstallationEvent;
pub use events::IntegrationInstallationRepositoriesEvent;
pub use events::IssueAction;
pub use events::IssueChanges;
pub use events::IssueCommentAction;
pub use events::IssueCommentEvent;
pub use events::IssuesEvent;
pub use events::LabelAction;
pub use events::LabelChanges;
pub use events::LabelEvent;
pub use events::PageAction;
pub use events::PageEvent;
pub use events::PingEvent;
pub use events::PullRequestAction;
pub use events::PullRequestEvent;
pub use events::PullRequestReviewAction;
pub use events::PullRequestReviewChanges;
pub use events::PullRequestReviewCommentAction;
pub use events::PullRequestReviewCommentChanges;
pub use events::PullRequestReviewCommentEvent;
pub use events::PullRequestReviewEvent;
pub use events::PushAuthor;
pub use events::PushCommit;
pub use events::PushEvent;
pub use events::Pusher;
pub use events::RepoHook;
pub use events::RepositoryAction;
pub use events::RepositoryEvent;
pub use events::WatchAction;
pub use events::WatchEvent;
pub use git::ApiCommit;
pub use git::Branch;
pub use oid::Oid;
pub use org::Organization;
pub use previews::Preview;
pub use repo::Comment;
pub use repo::Issue;
pub use repo::Label;
pub use repo::PullRef;
pub use repo::PullRequest;
pub use repo::Repository;
pub use repo::Review;
pub use repo::ReviewState;
pub use repo::ShortCommit;
pub use repo::ShortRepo;
pub use status::StatusCommit;
pub use status::StatusState;
pub use user::AuthenticatedUser;
pub use user::User;
pub use workflow::Deployment;
pub use workflow::DeploymentPerformedViaGithubApp;
pub use workflow::WorkflowCompletion;
pub use workflow::WorkflowJob;
pub use workflow::WorkflowStatus;
pub use workflow::WorkflowStep;
pub use workflow::WorkflowStepConclusion;
pub use workflow::WorkflowStepStatus;
