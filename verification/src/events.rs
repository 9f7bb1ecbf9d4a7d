//! Events are used by repository webhooks; the event kind is named in the
//! `X-Github-Event` header.

use vstd::prelude::*;

use crate::app::App;
use crate::app::AppEvent;
use crate::app::Installation;
use crate::checks::CheckRun;
use crate::checks::CheckSuite;
use crate::datetime::Timestamp;
use crate::oid::Oid;
use crate::repo::Comment;
use crate::repo::Issue;
use crate::repo::Label;
use crate::repo::PullRequest;
use crate::repo::Repository;
use crate::repo::Review;
use crate::repo::ShortRepo;
use crate::user::User;

verus! {

/// GitHub events that are specified in the `X-Github-Event` header.
#[derive(Debug, Copy, Clone, Eq, PartialEq, Ord, PartialOrd, Hash)]
pub enum EventType {
    /// (Special event.) Any time any event is triggered (wildcard event).
    Wildcard,
    /// (Special event.) Sent when a webhook is added.
    Ping,
    /// A check run is created, rerequested, completed, or has a requested
    /// action.
    CheckRun,
    /// A check suite is completed, requested, or rerequested.
    CheckSuite,
    /// A commit is commented on.
    CommitComment,
    /// The body or comment of an issue or pull request includes a URL that
    /// matches a configured content reference domain.
    ContentReference,
    /// A branch or tag is created.
    Create,
    /// A branch or tag is deleted.
    Delete,
    /// A repository has a new deployment created from the API.
    Deployment,
    /// A deployment for a repository has a status update from the API.
    DeploymentStatus,
    /// A repository is forked.
    Fork,
    /// Someone revokes their authorization of a GitHub App.
    GitHubAppAuthorization,
    /// A wiki page is updated.
    Gollum,
    /// A GitHub App is installed or uninstalled.
    Installation,
    /// Same as `Installation`, but deprecated.
    IntegrationInstallation,
    /// A repository is added or removed from an installation.
    InstallationRepositories,
    /// Same as `InstallationRepositories`, but deprecated.
    IntegrationInstallationRepositories,
    /// A comment on an issue is created, edited, or deleted.
    IssueComment,
    /// An issue is assigned, unassigned, labeled, unlabeled, opened,
    /// edited, milestoned, demilestoned, closed, or reopened.
    Issues,
    /// A label is created, edited, or deleted.
    Label,
    /// A user purchases, cancels, or changes their Marketplace plan.
    MarketplacePurchase,
    /// A user is added or removed as a collaborator to a repository, or
    /// has their permissions modified.
    Member,
    /// A user is added or removed from a team. Organization hooks only.
    Membership,
    /// A milestone is created, closed, opened, edited, or deleted.
    Milestone,
    /// A user is added, removed, or invited to an organization.
    /// Organization hooks only.
    Organization,
    /// An organization blocks or unblocks a user. Organization hooks only.
    OrgBlock,
    /// A Pages site is built or results in a failed build.
    PageBuild,
    /// A project card is created, edited, moved, converted to an issue, or
    /// deleted.
    ProjectCard,
    /// A project column is created, edited, moved, or deleted.
    ProjectColumn,
    /// A project is created, edited, closed, reopened, or deleted.
    Project,
    /// A repository changes from private to public.
    Public,
    /// A pull request is assigned, unassigned, labeled, unlabeled, opened,
    /// edited, closed, reopened, or synchronized, or a review is requested
    /// or a review request is removed.
    PullRequest,
    /// A comment on a pull request's unified diff is created, edited, or
    /// deleted.
    PullRequestReviewComment,
    /// A pull request review is submitted, edited, or dismissed.
    PullRequestReview,
    /// Any Git push to a repository, including editing tags or branches.
    Push,
    /// A release is published in a repository.
    Release,
    /// A repository is created, deleted, archived, unarchived, made
    /// public, or made private.
    Repository,
    /// A repository import finishes.
    RepositoryImport,
    /// A security alert is created, dismissed, or resolved.
    RepositoryVulnerabilityAlert,
    /// A security advisory is published, updated, or withdrawn.
    SecurityAdvisory,
    /// A repository has a status update from the API.
    Status,
    /// A team is created, deleted, modified, or added to or removed from a
    /// repository. Organization hooks only.
    Team,
    /// A team is added or modified on a repository.
    TeamAdd,
    /// A user stars a repository.
    Watch,
}

impl EventType {
    /// The event's name, as it appears in the `X-Github-Event` header.
    pub open spec fn name_spec(self) -> Seq<char> {
        match self {
            EventType::Wildcard => "*"@,
            EventType::Ping => "ping"@,
            EventType::CheckRun => "check_run"@,
            EventType::CheckSuite => "check_suite"@,
            EventType::CommitComment => "commit_comment"@,
            EventType::ContentReference => "content_reference"@,
            EventType::Create => "create"@,
            EventType::Delete => "delete"@,
            EventType::Deployment => "deployment"@,
            EventType::DeploymentStatus => "deployment_status"@,
            EventType::Fork => "fork"@,
            EventType::GitHubAppAuthorization => "github_app_authorization"@,
            EventType::Gollum => "gollum"@,
            EventType::Installation => "installation"@,
            EventType::IntegrationInstallation => "integration_installation"@,
            EventType::InstallationRepositories => "installation_repositories"@,
            EventType::IntegrationInstallationRepositories => "integration_installation_repositories"@,
            EventType::IssueComment => "issue_comment"@,
            EventType::Issues => "issues"@,
            EventType::Label => "label"@,
            EventType::MarketplacePurchase => "marketplace_purchase"@,
            EventType::Member => "member"@,
            EventType::Membership => "membership"@,
            EventType::Milestone => "milestone"@,
            EventType::Organization => "organization"@,
            EventType::OrgBlock => "org_block"@,
            EventType::PageBuild => "page_build"@,
            EventType::ProjectCard => "project_card"@,
            EventType::ProjectColumn => "project_column"@,
            EventType::Project => "project"@,
            EventType::Public => "public"@,
            EventType::PullRequest => "pull_request"@,
            EventType::PullRequestReview => "pull_request_review"@,
            EventType::PullRequestReviewComment => "pull_request_review_comment"@,
            EventType::Push => "push"@,
            EventType::Release => "release"@,
            EventType::Repository => "repository"@,
            EventType::RepositoryImport => "repository_import"@,
            EventType::RepositoryVulnerabilityAlert => "repository_vulnerability_alert"@,
            EventType::SecurityAdvisory => "security_advisory"@,
            EventType::Status => "status"@,
            EventType::Team => "team"@,
            EventType::TeamAdd => "team_add"@,
            EventType::Watch => "watch"@,
        }
    }

    /// The event type a header name denotes, if any: the inverse reading
    /// of `name_spec`, tried name by name.
    pub open spec fn of_name_spec(s: Seq<char>) -> Option<EventType> {
        if s == "*"@ {
            Some(EventType::Wildcard)
        } else if s == "ping"@ {
            Some(EventType::Ping)
        } else if s == "check_run"@ {
            Some(EventType::CheckRun)
        } else if s == "check_suite"@ {
            Some(EventType::CheckSuite)
        } else if s == "commit_comment"@ {
            Some(EventType::CommitComment)
        } else if s == "content_reference"@ {
            Some(EventType::ContentReference)
        } else if s == "create"@ {
            Some(EventType::Create)
        } else if s == "delete"@ {
            Some(EventType::Delete)
        } else if s == "deployment"@ {
            Some(EventType::Deployment)
        } else if s == "deployment_status"@ {
            Some(EventType::DeploymentStatus)
        } else if s == "fork"@ {
            Some(EventType::Fork)
        } else if s == "github_app_authorization"@ {
            Some(EventType::GitHubAppAuthorization)
        } else if s == "gollum"@ {
            Some(EventType::Gollum)
        } else if s == "installation"@ {
            Some(EventType::Installation)
        } else if s == "integration_installation"@ {
            Some(EventType::IntegrationInstallation)
        } else if s == "installation_repositories"@ {
            Some(EventType::InstallationRepositories)
        } else if s == "integration_installation_repositories"@ {
            Some(EventType::IntegrationInstallationRepositories)
        } else if s == "issue_comment"@ {
            Some(EventType::IssueComment)
        } else if s == "issues"@ {
            Some(EventType::Issues)
        } else if s == "label"@ {
            Some(EventType::Label)
        } else if s == "marketplace_purchase"@ {
            Some(EventType::MarketplacePurchase)
        } else if s == "member"@ {
            Some(EventType::Member)
        } else if s == "membership"@ {
            Some(EventType::Membership)
        } else if s == "milestone"@ {
            Some(EventType::Milestone)
        } else if s == "organization"@ {
            Some(EventType::Organization)
        } else if s == "org_block"@ {
            Some(EventType::OrgBlock)
        } else if s == "page_build"@ {
            Some(EventType::PageBuild)
        } else if s == "project_card"@ {
            Some(EventType::ProjectCard)
        } else if s == "project_column"@ {
            Some(EventType::ProjectColumn)
        } else if s == "project"@ {
            Some(EventType::Project)
        } else if s == "public"@ {
            Some(EventType::Public)
        } else if s == "pull_request"@ {
            Some(EventType::PullRequest)
        } else if s == "pull_request_review_comment"@ {
            Some(EventType::PullRequestReviewComment)
        } else if s == "pull_request_review"@ {
            Some(EventType::PullRequestReview)
        } else if s == "push"@ {
            Some(EventType::Push)
        } else if s == "release"@ {
            Some(EventType::Release)
        } else if s == "repository"@ {
            Some(EventType::Repository)
        } else if s == "repository_import"@ {
            Some(EventType::RepositoryImport)
        } else if s == "repository_vulnerability_alert"@ {
            Some(EventType::RepositoryVulnerabilityAlert)
        } else if s == "security_advisory"@ {
            Some(EventType::SecurityAdvisory)
        } else if s == "status"@ {
            Some(EventType::Status)
        } else if s == "team"@ {
            Some(EventType::Team)
        } else if s == "team_add"@ {
            Some(EventType::TeamAdd)
        } else if s == "watch"@ {
            Some(EventType::Watch)
        } else {
            None
        }
    }

    /// Returns a static string for the event name.
    pub fn name(self) -> (r: &'static str)
        ensures
            r@ == self.name_spec(),
    {
        match self {
            EventType::Wildcard => "*",
            EventType::Ping => "ping",
            EventType::CheckRun => "check_run",
            EventType::CheckSuite => "check_suite",
            EventType::CommitComment => "commit_comment",
            EventType::ContentReference => "content_reference",
            EventType::Create => "create",
            EventType::Delete => "delete",
            EventType::Deployment => "deployment",
            EventType::DeploymentStatus => "deployment_status",
            EventType::Fork => "fork",
            EventType::GitHubAppAuthorization => "github_app_authorization",
            EventType::Gollum => "gollum",
            EventType::Installation => "installation",
            EventType::IntegrationInstallation => "integration_installation",
            EventType::InstallationRepositories => "installation_repositories",
            EventType::IntegrationInstallationRepositories => {
                "integration_installation_repositories"
            },
            EventType::IssueComment => "issue_comment",
            EventType::Issues => "issues",
            EventType::Label => "label",
            EventType::MarketplacePurchase => "marketplace_purchase",
            EventType::Member => "member",
            EventType::Membership => "membership",
            EventType::Milestone => "milestone",
            EventType::Organization => "organization",
            EventType::OrgBlock => "org_block",
            EventType::PageBuild => "page_build",
            EventType::ProjectCard => "project_card",
            EventType::ProjectColumn => "project_column",
            EventType::Project => "project",
            EventType::Public => "public",
            EventType::PullRequest => "pull_request",
            EventType::PullRequestReview => "pull_request_review",
            EventType::PullRequestReviewComment => "pull_request_review_comment",
            EventType::Push => "push",
            EventType::Release => "release",
            EventType::Repository => "repository",
            EventType::RepositoryImport => "repository_import",
            EventType::RepositoryVulnerabilityAlert => "repository_vulnerability_alert",
            EventType::SecurityAdvisory => "security_advisory",
            EventType::Status => "status",
            EventType::Team => "team",
            EventType::TeamAdd => "team_add",
            EventType::Watch => "watch",
        }
    }

    /// Reads an event type from its `X-Github-Event` header name.
    pub fn from_name(s: &str) -> (r: Result<EventType, &'static str>)
        ensures
            EventType::of_name_spec(s@) matches Some(e) ==> r == Ok::<EventType, &'static str>(e),
            EventType::of_name_spec(s@) is None ==> (r matches Err(m) && m@
                == "invalid GitHub event"@),
    {
        if str_eq(s, "*") {
            Ok(EventType::Wildcard)
        } else if str_eq(s, "ping") {
            Ok(EventType::Ping)
        } else if str_eq(s, "check_run") {
            Ok(EventType::CheckRun)
        } else if str_eq(s, "check_suite") {
            Ok(EventType::CheckSuite)
        } else if str_eq(s, "commit_comment") {
            Ok(EventType::CommitComment)
        } else if str_eq(s, "content_reference") {
            Ok(EventType::ContentReference)
        } else if str_eq(s, "create") {
            Ok(EventType::Create)
        } else if str_eq(s, "delete") {
            Ok(EventType::Delete)
        } else if str_eq(s, "deployment") {
            Ok(EventType::Deployment)
        } else if str_eq(s, "deployment_status") {
            Ok(EventType::DeploymentStatus)
        } else if str_eq(s, "fork") {
            Ok(EventType::Fork)
        } else if str_eq(s, "github_app_authorization") {
            Ok(EventType::GitHubAppAuthorization)
        } else if str_eq(s, "gollum") {
            Ok(EventType::Gollum)
        } else if str_eq(s, "installation") {
            Ok(EventType::Installation)
        } else if str_eq(s, "integration_installation") {
            Ok(EventType::IntegrationInstallation)
        } else if str_eq(s, "installation_repositories") {
            Ok(EventType::InstallationRepositories)
        } else if str_eq(s, "integration_installation_repositories") {
            Ok(EventType::IntegrationInstallationRepositories)
        } else if str_eq(s, "issue_comment") {
            Ok(EventType::IssueComment)
        } else if str_eq(s, "issues") {
            Ok(EventType::Issues)
        } else if str_eq(s, "label") {
            Ok(EventType::Label)
        } else if str_eq(s, "marketplace_purchase") {
            Ok(EventType::MarketplacePurchase)
        } else if str_eq(s, "member") {
            Ok(EventType::Member)
        } else if str_eq(s, "membership") {
            Ok(EventType::Membership)
        } else if str_eq(s, "milestone") {
            Ok(EventType::Milestone)
        } else if str_eq(s, "organization") {
            Ok(EventType::Organization)
        } else if str_eq(s, "org_block") {
            Ok(EventType::OrgBlock)
        } else if str_eq(s, "page_build") {
            Ok(EventType::PageBuild)
        } else if str_eq(s, "project_card") {
            Ok(EventType::ProjectCard)
        } else if str_eq(s, "project_column") {
            Ok(EventType::ProjectColumn)
        } else if str_eq(s, "project") {
            Ok(EventType::Project)
        } else if str_eq(s, "public") {
            Ok(EventType::Public)
        } else if str_eq(s, "pull_request") {
            Ok(EventType::PullRequest)
        } else if str_eq(s, "pull_request_review_comment") {
            Ok(EventType::PullRequestReviewComment)
        } else if str_eq(s, "pull_request_review") {
            Ok(EventType::PullRequestReview)
        } else if str_eq(s, "push") {
            Ok(EventType::Push)
        } else if str_eq(s, "release") {
            Ok(EventType::Release)
        } else if str_eq(s, "repository") {
            Ok(EventType::Repository)
        } else if str_eq(s, "repository_import") {
            Ok(EventType::RepositoryImport)
        } else if str_eq(s, "repository_vulnerability_alert") {
            Ok(EventType::RepositoryVulnerabilityAlert)
        } else if str_eq(s, "security_advisory") {
            Ok(EventType::SecurityAdvisory)
        } else if str_eq(s, "status") {
            Ok(EventType::Status)
        } else if str_eq(s, "team") {
            Ok(EventType::Team)
        } else if str_eq(s, "team_add") {
            Ok(EventType::TeamAdd)
        } else if str_eq(s, "watch") {
            Ok(EventType::Watch)
        } else {
            Err("invalid GitHub event")
        }
    }
}

impl core::str::FromStr for EventType {
    type Err = &'static str;

    fn from_str(s: &str) -> Result<EventType, &'static str> {
        EventType::from_name(s)
    }
}

/// Law: every event type's name reads back as that event type.
#[verifier::spinoff_prover]
#[verifier::rlimit(100)]
pub proof fn lemma_event_type_name_round_trip(e: EventType)
    ensures
        EventType::of_name_spec(e.name_spec()) == Some(e),
{
    reveal_strlit("*");
    reveal_strlit("ping");
    reveal_strlit("check_run");
    reveal_strlit("check_suite");
    reveal_strlit("commit_comment");
    reveal_strlit("content_reference");
    reveal_strlit("create");
    reveal_strlit("delete");
    reveal_strlit("deployment");
    reveal_strlit("deployment_status");
    reveal_strlit("fork");
    reveal_strlit("github_app_authorization");
    reveal_strlit("gollum");
    reveal_strlit("installation");
    reveal_strlit("integration_installation");
    reveal_strlit("installation_repositories");
    reveal_strlit("integration_installation_repositories");
    reveal_strlit("issue_comment");
    reveal_strlit("issues");
    reveal_strlit("label");
    reveal_strlit("marketplace_purchase");
    reveal_strlit("member");
    reveal_strlit("membership");
    reveal_strlit("milestone");
    reveal_strlit("organization");
    reveal_strlit("org_block");
    reveal_strlit("page_build");
    reveal_strlit("project_card");
    reveal_strlit("project_column");
    reveal_strlit("project");
    reveal_strlit("public");
    reveal_strlit("pull_request");
    reveal_strlit("pull_request_review_comment");
    reveal_strlit("pull_request_review");
    reveal_strlit("push");
    reveal_strlit("release");
    reveal_strlit("repository");
    reveal_strlit("repository_import");
    reveal_strlit("repository_vulnerability_alert");
    reveal_strlit("security_advisory");
    reveal_strlit("status");
    reveal_strlit("team");
    reveal_strlit("team_add");
    reveal_strlit("watch");
    assert("*"@.len() == 1);
    assert("ping"@.len() == 4);
    assert("check_run"@.len() == 9);
    assert("check_suite"@.len() == 11);
    assert("commit_comment"@.len() == 14);
    assert("content_reference"@.len() == 17);
    assert("create"@.len() == 6);
    assert("delete"@.len() == 6);
    assert("deployment"@.len() == 10);
    assert("deployment_status"@.len() == 17);
    assert("fork"@.len() == 4);
    assert("github_app_authorization"@.len() == 24);
    assert("gollum"@.len() == 6);
    assert("installation"@.len() == 12);
    assert("integration_installation"@.len() == 24);
    assert("installation_repositories"@.len() == 25);
    assert("integration_installation_repositories"@.len() == 37);
    assert("issue_comment"@.len() == 13);
    assert("issues"@.len() == 6);
    assert("label"@.len() == 5);
    assert("marketplace_purchase"@.len() == 20);
    assert("member"@.len() == 6);
    assert("membership"@.len() == 10);
    assert("milestone"@.len() == 9);
    assert("organization"@.len() == 12);
    assert("org_block"@.len() == 9);
    assert("page_build"@.len() == 10);
    assert("project_card"@.len() == 12);
    assert("project_column"@.len() == 14);
    assert("project"@.len() == 7);
    assert("public"@.len() == 6);
    assert("pull_request"@.len() == 12);
    assert("pull_request_review_comment"@.len() == 27);
    assert("pull_request_review"@.len() == 19);
    assert("push"@.len() == 4);
    assert("release"@.len() == 7);
    assert("repository"@.len() == 10);
    assert("repository_import"@.len() == 17);
    assert("repository_vulnerability_alert"@.len() == 30);
    assert("security_advisory"@.len() == 17);
    assert("status"@.len() == 6);
    assert("team"@.len() == 4);
    assert("team_add"@.len() == 8);
    assert("watch"@.len() == 5);
    match e {
        EventType::Wildcard => {
            assert(EventType::of_name_spec(e.name_spec()) == Some(e));
        },
        EventType::Ping => {
            assert(EventType::of_name_spec(e.name_spec()) == Some(e));
        },
        EventType::CheckRun => {
            assert(EventType::of_name_spec(e.name_spec()) == Some(e));
        },
        EventType::CheckSuite => {
            assert(EventType::of_name_spec(e.name_spec()) == Some(e));
        },
        EventType::CommitComment => {
            assert(EventType::of_name_spec(e.name_spec()) == Some(e));
        },
        EventType::ContentReference => {
            assert(EventType::of_name_spec(e.name_spec()) == Some(e));
        },
        EventType::Create => {
            assert(EventType::of_name_spec(e.name_spec()) == Some(e));
        },
        EventType::Delete => {
            assert("delete"@ != "create"@) by {
                assert("delete"@[0] == 'd');
                assert("create"@[0] == 'c');
            };
            assert(EventType::of_name_spec(e.name_spec()) == Some(e));
        },
        EventType::Deployment => {
            assert(EventType::of_name_spec(e.name_spec()) == Some(e));
        },
        EventType::DeploymentStatus => {
            assert("deployment_status"@ != "content_reference"@) by {
                assert("deployment_status"@[0] == 'd');
                assert("content_reference"@[0] == 'c');
            };
            assert(EventType::of_name_spec(e.name_spec()) == Some(e));
        },
        EventType::Fork => {
            assert("fork"@ != "ping"@) by {
                assert("fork"@[0] == 'f');
                assert("ping"@[0] == 'p');
            };
            assert(EventType::of_name_spec(e.name_spec()) == Some(e));
        },
        EventType::GitHubAppAuthorization => {
            assert(EventType::of_name_spec(e.name_spec()) == Some(e));
        },
        EventType::Gollum => {
            assert("gollum"@ != "create"@) by {
                assert("gollum"@[0] == 'g');
                assert("create"@[0] == 'c');
            };
            assert("gollum"@ != "delete"@) by {
                assert("gollum"@[0] == 'g');
                assert("delete"@[0] == 'd');
            };
            assert(EventType::of_name_spec(e.name_spec()) == Some(e));
        },
        EventType::Installation => {
            assert(EventType::of_name_spec(e.name_spec()) == Some(e));
        },
        EventType::IntegrationInstallation => {
            assert("integration_installation"@ != "github_app_authorization"@) by {
                assert("integration_installation"@[0] == 'i');
                assert("github_app_authorization"@[0] == 'g');
            };
            assert(EventType::of_name_spec(e.name_spec()) == Some(e));
        },
        EventType::InstallationRepositories => {
            assert(EventType::of_name_spec(e.name_spec()) == Some(e));
        },
        EventType::IntegrationInstallationRepositories => {
            assert(EventType::of_name_spec(e.name_spec()) == Some(e));
        },
        EventType::IssueComment => {
            assert(EventType::of_name_spec(e.name_spec()) == Some(e));
        },
        EventType::Issues => {
            assert("issues"@ != "create"@) by {
                assert("issues"@[0] == 'i');
                assert("create"@[0] == 'c');
            };
            assert("issues"@ != "delete"@) by {
                assert("issues"@[0] == 'i');
                assert("delete"@[0] == 'd');
            };
            assert("issues"@ != "gollum"@) by {
                assert("issues"@[0] == 'i');
                assert("gollum"@[0] == 'g');
            };
            assert(EventType::of_name_spec(e.name_spec()) == Some(e));
        },
        EventType::Label => {
            assert(EventType::of_name_spec(e.name_spec()) == Some(e));
        },
        EventType::MarketplacePurchase => {
            assert(EventType::of_name_spec(e.name_spec()) == Some(e));
        },
        EventType::Member => {
            assert("member"@ != "create"@) by {
                assert("member"@[0] == 'm');
                assert("create"@[0] == 'c');
            };
            assert("member"@ != "delete"@) by {
                assert("member"@[0] == 'm');
                assert("delete"@[0] == 'd');
            };
            assert("member"@ != "gollum"@) by {
                assert("member"@[0] == 'm');
                assert("gollum"@[0] == 'g');
            };
            assert("member"@ != "issues"@) by {
                assert("member"@[0] == 'm');
                assert("issues"@[0] == 'i');
            };
            assert(EventType::of_name_spec(e.name_spec()) == Some(e));
        },
        EventType::Membership => {
            assert("membership"@ != "deployment"@) by {
                assert("membership"@[0] == 'm');
                assert("deployment"@[0] == 'd');
            };
            assert(EventType::of_name_spec(e.name_spec()) == Some(e));
        },
        EventType::Milestone => {
            assert("milestone"@ != "check_run"@) by {
                assert("milestone"@[0] == 'm');
                assert("check_run"@[0] == 'c');
            };
            assert(EventType::of_name_spec(e.name_spec()) == Some(e));
        },
        EventType::Organization => {
            assert("organization"@ != "installation"@) by {
                assert("organization"@[0] == 'o');
                assert("installation"@[0] == 'i');
            };
            assert(EventType::of_name_spec(e.name_spec()) == Some(e));
        },
        EventType::OrgBlock => {
            assert("org_block"@ != "check_run"@) by {
                assert("org_block"@[0] == 'o');
                assert("check_run"@[0] == 'c');
            };
            assert("org_block"@ != "milestone"@) by {
                assert("org_block"@[0] == 'o');
                assert("milestone"@[0] == 'm');
            };
            assert(EventType::of_name_spec(e.name_spec()) == Some(e));
        },
        EventType::PageBuild => {
            assert("page_build"@ != "deployment"@) by {
                assert("page_build"@[0] == 'p');
                assert("deployment"@[0] == 'd');
            };
            assert("page_build"@ != "membership"@) by {
                assert("page_build"@[0] == 'p');
                assert("membership"@[0] == 'm');
            };
            assert(EventType::of_name_spec(e.name_spec()) == Some(e));
        },
        EventType::ProjectCard => {
            assert("project_card"@ != "installation"@) by {
                assert("project_card"@[0] == 'p');
                assert("installation"@[0] == 'i');
            };
            assert("project_card"@ != "organization"@) by {
                assert("project_card"@[0] == 'p');
                assert("organization"@[0] == 'o');
            };
            assert(EventType::of_name_spec(e.name_spec()) == Some(e));
        },
        EventType::ProjectColumn => {
            assert("project_column"@ != "commit_comment"@) by {
                assert("project_column"@[0] == 'p');
                assert("commit_comment"@[0] == 'c');
            };
            assert(EventType::of_name_spec(e.name_spec()) == Some(e));
        },
        EventType::Project => {
            assert(EventType::of_name_spec(e.name_spec()) == Some(e));
        },
        EventType::Public => {
            assert("public"@ != "create"@) by {
                assert("public"@[0] == 'p');
                assert("create"@[0] == 'c');
            };
            assert("public"@ != "delete"@) by {
                assert("public"@[0] == 'p');
                assert("delete"@[0] == 'd');
            };
            assert("public"@ != "gollum"@) by {
                assert("public"@[0] == 'p');
                assert("gollum"@[0] == 'g');
            };
            assert("public"@ != "issues"@) by {
                assert("public"@[0] == 'p');
                assert("issues"@[0] == 'i');
            };
            assert("public"@ != "member"@) by {
                assert("public"@[0] == 'p');
                assert("member"@[0] == 'm');
            };
            assert(EventType::of_name_spec(e.name_spec()) == Some(e));
        },
        EventType::PullRequest => {
            assert("pull_request"@ != "installation"@) by {
                assert("pull_request"@[0] == 'p');
                assert("installation"@[0] == 'i');
            };
            assert("pull_request"@ != "organization"@) by {
                assert("pull_request"@[0] == 'p');
                assert("organization"@[0] == 'o');
            };
            assert("pull_request"@ != "project_card"@) by {
                assert("pull_request"@[1] == 'u');
                assert("project_card"@[1] == 'r');
            };
            assert(EventType::of_name_spec(e.name_spec()) == Some(e));
        },
        EventType::PullRequestReviewComment => {
            assert(EventType::of_name_spec(e.name_spec()) == Some(e));
        },
        EventType::PullRequestReview => {
            assert(EventType::of_name_spec(e.name_spec()) == Some(e));
        },
        EventType::Push => {
            assert("push"@ != "ping"@) by {
                assert("push"@[1] == 'u');
                assert("ping"@[1] == 'i');
            };
            assert("push"@ != "fork"@) by {
                assert("push"@[0] == 'p');
                assert("fork"@[0] == 'f');
            };
            assert(EventType::of_name_spec(e.name_spec()) == Some(e));
        },
        EventType::Release => {
            assert("release"@ != "project"@) by {
                assert("release"@[0] == 'r');
                assert("project"@[0] == 'p');
            };
            assert(EventType::of_name_spec(e.name_spec()) == Some(e));
        },
        EventType::Repository => {
            assert("repository"@ != "deployment"@) by {
                assert("repository"@[0] == 'r');
                assert("deployment"@[0] == 'd');
            };
            assert("repository"@ != "membership"@) by {
                assert("repository"@[0] == 'r');
                assert("membership"@[0] == 'm');
            };
            assert("repository"@ != "page_build"@) by {
                assert("repository"@[0] == 'r');
                assert("page_build"@[0] == 'p');
            };
            assert(EventType::of_name_spec(e.name_spec()) == Some(e));
        },
        EventType::RepositoryImport => {
            assert("repository_import"@ != "content_reference"@) by {
                assert("repository_import"@[0] == 'r');
                assert("content_reference"@[0] == 'c');
            };
            assert("repository_import"@ != "deployment_status"@) by {
                assert("repository_import"@[0] == 'r');
                assert("deployment_status"@[0] == 'd');
            };
            assert(EventType::of_name_spec(e.name_spec()) == Some(e));
        },
        EventType::RepositoryVulnerabilityAlert => {
            assert(EventType::of_name_spec(e.name_spec()) == Some(e));
        },
        EventType::SecurityAdvisory => {
            assert("security_advisory"@ != "content_reference"@) by {
                assert("security_advisory"@[0] == 's');
                assert("content_reference"@[0] == 'c');
            };
            assert("security_advisory"@ != "deployment_status"@) by {
                assert("security_advisory"@[0] == 's');
                assert("deployment_status"@[0] == 'd');
            };
            assert("security_advisory"@ != "repository_import"@) by {
                assert("security_advisory"@[0] == 's');
                assert("repository_import"@[0] == 'r');
            };
            assert(EventType::of_name_spec(e.name_spec()) == Some(e));
        },
        EventType::Status => {
            assert("status"@ != "create"@) by {
                assert("status"@[0] == 's');
                assert("create"@[0] == 'c');
            };
            assert("status"@ != "delete"@) by {
                assert("status"@[0] == 's');
                assert("delete"@[0] == 'd');
            };
            assert("status"@ != "gollum"@) by {
                assert("status"@[0] == 's');
                assert("gollum"@[0] == 'g');
            };
            assert("status"@ != "issues"@) by {
                assert("status"@[0] == 's');
                assert("issues"@[0] == 'i');
            };
            assert("status"@ != "member"@) by {
                assert("status"@[0] == 's');
                assert("member"@[0] == 'm');
            };
            assert("status"@ != "public"@) by {
                assert("status"@[0] == 's');
                assert("public"@[0] == 'p');
            };
            assert(EventType::of_name_spec(e.name_spec()) == Some(e));
        },
        EventType::Team => {
            assert("team"@ != "ping"@) by {
                assert("team"@[0] == 't');
                assert("ping"@[0] == 'p');
            };
            assert("team"@ != "fork"@) by {
                assert("team"@[0] == 't');
                assert("fork"@[0] == 'f');
            };
            assert("team"@ != "push"@) by {
                assert("team"@[0] == 't');
                assert("push"@[0] == 'p');
            };
            assert(EventType::of_name_spec(e.name_spec()) == Some(e));
        },
        EventType::TeamAdd => {
            assert(EventType::of_name_spec(e.name_spec()) == Some(e));
        },
        EventType::Watch => {
            assert("watch"@ != "label"@) by {
                assert("watch"@[0] == 'w');
                assert("label"@[0] == 'l');
            };
            assert(EventType::of_name_spec(e.name_spec()) == Some(e));
        },
    }
}

/// Whether two strings hold the same characters.
fn str_eq(a: &str, b: &str) -> (r: bool)
    ensures
        r == (a@ == b@),
{
    let n = a.unicode_len();
    let m = b.unicode_len();
    if n != m {
        proof {
            assert(a@.len() != b@.len());
        }
        return false;
    }
    let mut i: usize = 0;
    while i < n
        invariant
            n == a@.len(),
            n == b@.len(),
            i <= n,
            forall|j: int| 0 <= j < i ==> a@[j] == b@[j],
        decreases n - i,
    {
        if a.get_char(i) != b.get_char(i) {
            return false;
        }
        i = i + 1;
    }
    proof {
        assert(a@ =~= b@);
    }
    true
}

/// The App installation ID.
#[derive(Debug, Copy, Clone, Eq, PartialEq, Ord, PartialOrd, Hash)]
pub struct InstallationId {
    pub id: u64,
}

#[derive(Debug, Clone, Eq, PartialEq, Ord, PartialOrd, Hash)]
pub enum Hook {
    Repository(RepoHook),
    App(AppHook),
}

#[derive(Debug, Clone, Eq, PartialEq, Ord, PartialOrd, Hash)]
pub struct RepoHook {
    pub id: u64,
    pub name: String,
    pub active: bool,
    pub events: Vec<EventType>,
    pub config: HookConfig,
    pub updated_at: Timestamp,
    pub created_at: Timestamp,
    pub url: String,
    pub test_url: String,
    pub ping_url: String,
}

#[derive(Debug, Clone, Eq, PartialEq, Ord, PartialOrd, Hash)]
pub struct HookConfig {
    pub content_type: String,
    pub insecure_ssl: String,
    pub secret: Option<String>,
    pub url: String,
}

#[derive(Debug, Clone, Eq, PartialEq, Ord, PartialOrd, Hash)]
pub struct AppHook {
    pub id: u64,
    pub name: String,
    pub active: bool,
    pub events: Vec<EventType>,
    pub config: HookConfig,
    pub updated_at: Timestamp,
    pub created_at: Timestamp,
    pub app_id: u64,
}

#[derive(Debug, Clone, Eq, PartialEq, Ord, PartialOrd, Hash)]
pub struct PingEvent {
    pub zen: String,
    pub hook_id: u64,
    pub hook: Hook,
    pub repository: Option<Repository>,
    pub sender: Option<User>,
}

impl AppEvent for PingEvent {
    open spec fn installation_spec(&self) -> Option<u64> {
        None
    }

    fn installation(&self) -> (r: Option<u64>) {
        None
    }
}

#[derive(Debug, Copy, Clone, Eq, PartialEq, Ord, PartialOrd, Hash)]
pub enum CheckRunEventAction {
    /// A new check run was created.
    Created,
    /// The status of the check run is completed.
    Completed,
    /// Someone requested to re-run your check run.
    Rerequested,
    /// Someone requested that an action be taken.
    RequestedAction,
}

#[derive(Debug, Clone, Eq, PartialEq, Ord, PartialOrd, Hash)]
pub struct CheckRunEvent {
    /// The action performed.
    pub action: CheckRunEventAction,
    /// The check run.
    pub check_run: CheckRun,
    /// The repository associated with this event.
    pub repository: Repository,
    /// The user who triggered the event.
    pub sender: User,
    /// The App installation ID.
    pub installation: InstallationId,
}

impl AppEvent for CheckRunEvent {
    open spec fn installation_spec(&self) -> Option<u64> {
        Some(self.installation.id)
    }

    fn installation(&self) -> (r: Option<u64>) {
        Some(self.installation.id)
    }
}

#[derive(Debug, Copy, Clone, Eq, PartialEq, Ord, PartialOrd, Hash)]
pub enum CheckSuiteEventAction {
    Completed,
    Requested,
    Rerequested,
}

impl CheckSuiteEventAction {
    /// Whether the action asks for a check suite to be run: a request or a
    /// re-request.
    pub open spec fn is_requested_spec(self) -> bool {
        self is Requested || self is Rerequested
    }

    /// Whether the action marks the check suite as completed.
    pub open spec fn is_completed_spec(self) -> bool {
        self is Completed
    }

    /// Returns `true` if the action indicates that the check suite is
    /// completed.
    pub fn is_completed(self) -> (r: bool)
        ensures
            r == self.is_completed_spec(),
    {
        match self {
            CheckSuiteEventAction::Completed => true,
            _ => false,
        }
    }

    /// Returns `true` if the action indicates that the check suite has
    /// been requested or re-requested.
    pub fn is_requested(self) -> (r: bool)
        ensures
            r == self.is_requested_spec(),
    {
        match self {
            CheckSuiteEventAction::Requested | CheckSuiteEventAction::Rerequested => true,
            _ => false,
        }
    }
}

#[derive(Debug, Clone, Eq, PartialEq, Ord, PartialOrd, Hash)]
pub struct CheckSuiteEvent {
    /// The action performed.
    pub action: CheckSuiteEventAction,
    /// The check suite.
    pub check_suite: CheckSuite,
    /// The repository associated with this event.
    pub repository: Repository,
    /// The user who triggered the event.
    pub sender: User,
    /// The App installation ID.
    pub installation: InstallationId,
}

impl CheckSuiteEvent {
    /// Returns `true` if this event indicates that a check suite was
    /// requested.
    pub fn is_requested(&self) -> (r: bool)
        ensures
            r == self.action.is_requested_spec(),
    {
        self.action.is_requested()
    }
}

impl AppEvent for CheckSuiteEvent {
    open spec fn installation_spec(&self) -> Option<u64> {
        Some(self.installation.id)
    }

    fn installation(&self) -> (r: Option<u64>) {
        Some(self.installation.id)
    }
}

#[derive(Debug, Copy, Clone, Eq, PartialEq, Ord, PartialOrd, Hash)]
pub enum CommitCommentAction {
    Created,
}

#[derive(Debug, Clone, Eq, PartialEq, Ord, PartialOrd, Hash)]
pub struct CommitCommentEvent {
    pub action: CommitCommentAction,
    /// The comment in question.
    pub comment: Comment,
    /// The repository associated with this event.
    pub repository: Repository,
    /// The user who triggered the event.
    pub sender: User,
    /// The App installation ID. This is only present for GitHub App
    /// events.
    pub installation: Option<InstallationId>,
}

impl AppEvent for CommitCommentEvent {
    open spec fn installation_spec(&self) -> Option<u64> {
        match self.installation {
            Some(i) => Some(i.id),
            None => None,
        }
    }

    fn installation(&self) -> (r: Option<u64>) {
        match self.installation {
            Some(i) => Some(i.id),
            None => None,
        }
    }
}

#[derive(Debug, Copy, Clone, Eq, PartialEq, Ord, PartialOrd, Hash)]
pub enum CreateRefType {
    Repository,
    Branch,
    Tag,
}

#[derive(Debug, Clone, Eq, PartialEq, Ord, PartialOrd, Hash)]
pub struct CreateEvent {
    /// The Git ref type.
    pub ref_type: CreateRefType,
    /// The Git ref string; `None` if only a repository was created.
    pub git_ref: Option<String>,
    /// The name of the repository's default branch (usually `master`).
    pub master_branch: String,
    /// The repository's current description.
    pub description: Option<String>,
    /// The repository associated with this event.
    pub repository: Repository,
    /// The user who triggered the event.
    pub sender: User,
    /// The App installation ID. This is only present for GitHub App
    /// events.
    pub installation: Option<InstallationId>,
}

impl AppEvent for CreateEvent {
    open spec fn installation_spec(&self) -> Option<u64> {
        match self.installation {
            Some(i) => Some(i.id),
            None => None,
        }
    }

    fn installation(&self) -> (r: Option<u64>) {
        match self.installation {
            Some(i) => Some(i.id),
            None => None,
        }
    }
}

#[derive(Debug, Copy, Clone, Eq, PartialEq, Ord, PartialOrd, Hash)]
pub enum DeleteRefType {
    Branch,
    Tag,
}

#[derive(Debug, Clone, Eq, PartialEq, Ord, PartialOrd, Hash)]
pub struct DeleteEvent {
    /// The Git ref type.
    pub ref_type: DeleteRefType,
    /// The Git ref string.
    pub git_ref: String,
    /// The repository associated with this event.
    pub repository: Repository,
    /// The user who triggered the event.
    pub sender: User,
    /// The App installation ID. This is only present for GitHub App
    /// events.
    pub installation: Option<InstallationId>,
}

impl AppEvent for DeleteEvent {
    open spec fn installation_spec(&self) -> Option<u64> {
        match self.installation {
            Some(i) => Some(i.id),
            None => None,
        }
    }

    fn installation(&self) -> (r: Option<u64>) {
        match self.installation {
            Some(i) => Some(i.id),
            None => None,
        }
    }
}

#[derive(Debug, Copy, Clone, Eq, PartialEq, Ord, PartialOrd, Hash)]
pub enum GitHubAppAuthorizationAction {
    Revoked,
}

/// Triggered when someone revokes their authorization of a GitHub App. A
/// GitHub App receives this webhook by default and cannot unsubscribe from
/// this event.
#[derive(Debug, Clone, Eq, PartialEq, Ord, PartialOrd, Hash)]
pub struct GitHubAppAuthorizationEvent {
    pub action: GitHubAppAuthorizationAction,
    /// The user who triggered the event.
    pub sender: User,
    /// The App installation ID.
    pub installation: InstallationId,
}

impl AppEvent for GitHubAppAuthorizationEvent {
    open spec fn installation_spec(&self) -> Option<u64> {
        Some(self.installation.id)
    }

    fn installation(&self) -> (r: Option<u64>) {
        Some(self.installation.id)
    }
}

#[derive(Debug, Copy, Clone, Eq, PartialEq, Ord, PartialOrd, Hash)]
pub enum PageAction {
    Created,
    Edited,
}

#[derive(Debug, Clone, Eq, PartialEq, Ord, PartialOrd, Hash)]
pub struct PageEvent {
    pub page_name: String,
    pub title: String,
    pub summary: Option<String>,
    pub action: PageAction,
    pub sha: Oid,
    pub html_url: String,
}

#[derive(Debug, Clone, Eq, PartialEq, Ord, PartialOrd, Hash)]
pub struct GollumEvent {
    /// The pages that were created or edited.
    pub pages: Vec<PageEvent>,
    /// The repository for which the action took place.
    pub repository: Repository,
    /// The user who triggered the event.
    pub sender: User,
    /// The App installation ID. This is only present for GitHub App
    /// events.
    pub installation: Option<InstallationId>,
}

impl AppEvent for GollumEvent {
    open spec fn installation_spec(&self) -> Option<u64> {
        match self.installation {
            Some(i) => Some(i.id),
            None => None,
        }
    }

    fn installation(&self) -> (r: Option<u64>) {
        match self.installation {
            Some(i) => Some(i.id),
            None => None,
        }
    }
}

#[derive(Debug, Copy, Clone, Eq, PartialEq, Ord, PartialOrd, Hash)]
pub enum InstallationAction {
    Created,
    Deleted,
    NewPermissionsAccepted,
}

#[derive(Debug, Clone, Eq, PartialEq, Ord, PartialOrd, Hash)]
pub struct InstallationEvent {
    pub action: InstallationAction,
    pub installation: Installation,
    pub sender: User,
}

impl AppEvent for InstallationEvent {
    open spec fn installation_spec(&self) -> Option<u64> {
        Some(self.installation.id)
    }

    fn installation(&self) -> (r: Option<u64>) {
        Some(self.installation.id)
    }
}

#[derive(Debug, Copy, Clone, Eq, PartialEq, Ord, PartialOrd, Hash)]
pub enum InstallationRepositoriesAction {
    Added,
    Removed,
}

#[derive(Debug, Clone, Eq, PartialEq, Ord, PartialOrd, Hash)]
pub struct InstallationRepositoriesEvent {
    pub action: InstallationRepositoriesAction,
    pub installation: Installation,
    pub repository_selection: String,
    pub repositories_added: Vec<ShortRepo>,
    pub repositories_removed: Vec<ShortRepo>,
    pub sender: User,
}

impl AppEvent for InstallationRepositoriesEvent {
    open spec fn installation_spec(&self) -> Option<u64> {
        Some(self.installation.id)
    }

    fn installation(&self) -> (r: Option<u64>) {
        Some(self.installation.id)
    }
}

/// Event deprecated by GitHub. Use `InstallationEvent` instead.
#[derive(Debug, Clone, Eq, PartialEq, Ord, PartialOrd, Hash)]
pub struct IntegrationInstallationEvent {
}

impl AppEvent for IntegrationInstallationEvent {
    open spec fn installation_spec(&self) -> Option<u64> {
        None
    }

    fn installation(&self) -> (r: Option<u64>) {
        None
    }
}

/// Event deprecated by GitHub. Use `InstallationRepositoriesEvent`
/// instead.
#[derive(Debug, Clone, Eq, PartialEq, Ord, PartialOrd, Hash)]
pub struct IntegrationInstallationRepositoriesEvent {
}

impl AppEvent for IntegrationInstallationRepositoriesEvent {
    open spec fn installation_spec(&self) -> Option<u64> {
        None
    }

    fn installation(&self) -> (r: Option<u64>) {
        None
    }
}

#[derive(Debug, Copy, Clone, Eq, PartialEq, Ord, PartialOrd, Hash)]
pub enum IssueCommentAction {
    Created,
    Edited,
    Deleted,
}

#[derive(Debug, Clone, Eq, PartialEq, Ord, PartialOrd, Hash)]
pub struct IssueCommentEvent {
    /// The action that was performed.
    pub action: IssueCommentAction,
    /// The issue associated with the comment.
    pub issue: Issue,
    /// The comment in question.
    pub comment: Comment,
    /// The repository associated with this event.
    pub repository: Repository,
    /// The user who triggered the event.
    pub sender: User,
    /// The App installation ID. This is only present for GitHub App
    /// events.
    pub installation: Option<InstallationId>,
}

impl AppEvent for IssueCommentEvent {
    open spec fn installation_spec(&self) -> Option<u64> {
        match self.installation {
            Some(i) => Some(i.id),
            None => None,
        }
    }

    fn installation(&self) -> (r: Option<u64>) {
        match self.installation {
            Some(i) => Some(i.id),
            None => None,
        }
    }
}

#[derive(Debug, Copy, Clone, Eq, PartialEq, Ord, PartialOrd, Hash)]
pub enum IssueAction {
    Opened,
    Edited,
    Deleted,
    Transferred,
    Pinned,
    Unpinned,
    Closed,
    Reopened,
    Assigned,
    Unassigned,
    Labeled,
    Unlabeled,
    Milestoned,
    Demilestoned,
}

#[derive(Debug, Clone, Eq, PartialEq, Ord, PartialOrd, Hash)]
pub struct ChangeFrom {
    pub from: String,
}

#[derive(Debug, Clone, Eq, PartialEq, Ord, PartialOrd, Hash)]
pub struct IssueChanges {
    /// A change to the body, if any.
    pub body: Option<ChangeFrom>,
    /// A change to the title, if any.
    pub title: Option<ChangeFrom>,
}

#[derive(Debug, Clone, Eq, PartialEq, Ord, PartialOrd, Hash)]
pub struct IssuesEvent {
    /// The action that was performed.
    pub action: IssueAction,
    /// The issue itself.
    pub issue: Issue,
    /// Changes to the issue (if the action is `Edited`).
    pub changes: Option<IssueChanges>,
    /// The label that was added or removed (if the action is `Labeled` or
    /// `Unlabeled`).
    pub label: Option<Label>,
    /// The user who was assigned or unassigned (if the action is
    /// `Assigned` or `Unassigned`).
    pub assignee: Option<User>,
    /// The repository associated with this event.
    pub repository: Repository,
    /// The user who triggered the event.
    pub sender: User,
    /// The App installation ID. This is only present for GitHub App
    /// events.
    pub installation: Option<InstallationId>,
}

impl AppEvent for IssuesEvent {
    open spec fn installation_spec(&self) -> Option<u64> {
        match self.installation {
            Some(i) => Some(i.id),
            None => None,
        }
    }

    fn installation(&self) -> (r: Option<u64>) {
        match self.installation {
            Some(i) => Some(i.id),
            None => None,
        }
    }
}

#[derive(Debug, Copy, Clone, Eq, PartialEq, Ord, PartialOrd, Hash)]
pub enum LabelAction {
    Created,
    Edited,
    Deleted,
}

#[derive(Debug, Clone, Eq, PartialEq, Ord, PartialOrd, Hash)]
pub struct LabelChanges {
    /// A change to the color, if any.
    pub color: Option<ChangeFrom>,
    /// A change to the name, if any.
    pub name: Option<ChangeFrom>,
}

#[derive(Debug, Clone, Eq, PartialEq, Ord, PartialOrd, Hash)]
pub struct LabelEvent {
    /// The action that was performed.
    pub action: LabelAction,
    /// The label itself.
    pub label: Label,
    /// Changes to the label (if the action is `Edited`).
    pub changes: Option<LabelChanges>,
    /// The repository associated with this event.
    pub repository: Repository,
    /// The user who triggered the event.
    pub sender: User,
    /// The App installation ID. This is only present for GitHub App
    /// events.
    pub installation: Option<InstallationId>,
}

impl AppEvent for LabelEvent {
    open spec fn installation_spec(&self) -> Option<u64> {
        match self.installation {
            Some(i) => Some(i.id),
            None => None,
        }
    }

    fn installation(&self) -> (r: Option<u64>) {
        match self.installation {
            Some(i) => Some(i.id),
            None => None,
        }
    }
}

#[derive(Debug, Copy, Clone, Eq, PartialEq, Ord, PartialOrd, Hash)]
pub enum PullRequestAction {
    Assigned,
    Unassigned,
    ReviewRequested,
    ReviewRequestRemoved,
    Labeled,
    Unlabeled,
    Opened,
    Edited,
    Closed,
    ReadyForReview,
    Locked,
    Unlocked,
    Reopened,
    Synchronize,
}

#[derive(Debug, Clone, Eq, PartialEq, Ord, PartialOrd, Hash)]
pub struct PullRequestEvent {
    /// The action that was performed. If the action is `Closed` and the
    /// `merged` key is `false`, the pull request was closed with unmerged
    /// commits; if `merged` is `true`, the pull request was merged.
    pub action: PullRequestAction,
    /// The pull request number.
    pub number: u64,
    /// The pull request itself.
    pub pull_request: PullRequest,
    /// The repository associated with this event.
    pub repository: Repository,
    /// The user who triggered the event.
    pub sender: User,
    /// The App installation ID. This is only present for GitHub App
    /// events.
    pub installation: Option<InstallationId>,
}

impl AppEvent for PullRequestEvent {
    open spec fn installation_spec(&self) -> Option<u64> {
        match self.installation {
            Some(i) => Some(i.id),
            None => None,
        }
    }

    fn installation(&self) -> (r: Option<u64>) {
        match self.installation {
            Some(i) => Some(i.id),
            None => None,
        }
    }
}

#[derive(Debug, Copy, Clone, Eq, PartialEq, Ord, PartialOrd, Hash)]
pub enum PullRequestReviewAction {
    Submitted,
    Edited,
    Dismissed,
}

#[derive(Debug, Clone, Eq, PartialEq, Ord, PartialOrd, Hash)]
pub struct PullRequestReviewChanges {
    pub body: Option<ChangeFrom>,
}

#[derive(Debug, Clone, Eq, PartialEq, Ord, PartialOrd, Hash)]
pub struct PullRequestReviewEvent {
    /// The action that was performed.
    pub action: PullRequestReviewAction,
    /// The review that was affected.
    pub review: Review,
    /// Changes to the review if the action is `Edited`.
    pub changes: Option<PullRequestReviewChanges>,
    /// The pull request itself.
    pub pull_request: PullRequest,
    /// The repository associated with this event.
    pub repository: Repository,
    /// The user who triggered the event.
    pub sender: User,
    /// The App installation ID. This is only present for GitHub App
    /// events.
    pub installation: Option<InstallationId>,
}

impl AppEvent for PullRequestReviewEvent {
    open spec fn installation_spec(&self) -> Option<u64> {
        match self.installation {
            Some(i) => Some(i.id),
            None => None,
        }
    }

    fn installation(&self) -> (r: Option<u64>) {
        match self.installation {
            Some(i) => Some(i.id),
            None => None,
        }
    }
}

#[derive(Debug, Copy, Clone, Eq, PartialEq, Ord, PartialOrd, Hash)]
pub enum PullRequestReviewCommentAction {
    Created,
    Edited,
    Deleted,
}

#[derive(Debug, Clone, Eq, PartialEq, Ord, PartialOrd, Hash)]
pub struct PullRequestReviewCommentChanges {
    /// A change to the body, if any.
    pub body: Option<ChangeFrom>,
}

#[derive(Debug, Clone, Eq, PartialEq, Ord, PartialOrd, Hash)]
pub struct PullRequestReviewCommentEvent {
    pub action: PullRequestReviewCommentAction,
    /// The changes to the comment if the action was `Edited`.
    pub changes: Option<PullRequestReviewCommentChanges>,
    /// The pull request itself.
    pub pull_request: PullRequest,
    /// The repository associated with this event.
    pub repository: Repository,
    /// The comment in question.
    pub comment: Comment,
    /// The user who triggered the event.
    pub sender: User,
    /// The App installation ID. This is only present for GitHub App
    /// events.
    pub installation: Option<InstallationId>,
}

impl AppEvent for PullRequestReviewCommentEvent {
    open spec fn installation_spec(&self) -> Option<u64> {
        match self.installation {
            Some(i) => Some(i.id),
            None => None,
        }
    }

    fn installation(&self) -> (r: Option<u64>) {
        match self.installation {
            Some(i) => Some(i.id),
            None => None,
        }
    }
}

#[derive(Debug, Clone, Eq, PartialEq, Ord, PartialOrd, Hash)]
pub struct Pusher {
    pub name: String,
    pub email: Option<String>,
}

#[derive(Debug, Clone, Eq, PartialEq, Ord, PartialOrd, Hash)]
pub struct PushAuthor {
    pub name: String,
    pub email: Option<String>,
    pub username: Option<String>,
}

#[derive(Debug, Clone, Eq, PartialEq, Ord, PartialOrd, Hash)]
pub struct PushCommit {
    pub id: Oid,
    pub tree_id: Oid,
    pub distinct: bool,
    pub message: String,
    pub timestamp: Timestamp,
    pub url: String,
    pub author: PushAuthor,
    pub committer: PushAuthor,
    pub added: Vec<String>,
    pub removed: Vec<String>,
    pub modified: Vec<String>,
}

#[derive(Debug, Clone, Eq, PartialEq, Ord, PartialOrd, Hash)]
pub struct PushEvent {
    /// The Git ref string that was pushed.
    pub git_ref: String,
    /// The commit hash of the branch before the push.
    pub before: Oid,
    /// The commit hash of the branch after the push.
    pub after: Oid,
    /// `true` if this is a new branch.
    pub created: bool,
    /// `true` if this branch is being deleted.
    pub deleted: bool,
    /// `true` if this was a force-push.
    pub forced: bool,
    pub base_ref: Option<String>,
    /// The URL to compare the changes with.
    pub compare: String,
    /// The list of commits that were pushed.
    pub commits: Vec<PushCommit>,
    /// The new head commit.
    pub head_commit: Option<PushCommit>,
    /// The repository associated with this event.
    pub repository: Repository,
    /// The user who pushed the branch: the same as the sender, with less
    /// information.
    pub pusher: Pusher,
    /// The user who triggered the event.
    pub sender: User,
    /// The App installation ID. This is only present for GitHub App
    /// events.
    pub installation: Option<InstallationId>,
}

impl AppEvent for PushEvent {
    open spec fn installation_spec(&self) -> Option<u64> {
        match self.installation {
            Some(i) => Some(i.id),
            None => None,
        }
    }

    fn installation(&self) -> (r: Option<u64>) {
        match self.installation {
            Some(i) => Some(i.id),
            None => None,
        }
    }
}

#[derive(Debug, Copy, Clone, Eq, PartialEq, Ord, PartialOrd, Hash)]
pub enum RepositoryAction {
    Created,
    Deleted,
    Archived,
    Unarchived,
    Publicized,
    Privatized,
}

#[derive(Debug, Clone, Eq, PartialEq, Ord, PartialOrd, Hash)]
pub struct RepositoryEvent {
    /// The action that was performed.
    pub action: RepositoryAction,
    /// The repository associated with this event.
    pub repository: Repository,
    /// The user who triggered the event.
    pub sender: User,
    /// The App installation ID. This is only present for GitHub App
    /// events.
    pub installation: Option<InstallationId>,
}

impl AppEvent for RepositoryEvent {
    open spec fn installation_spec(&self) -> Option<u64> {
        match self.installation {
            Some(i) => Some(i.id),
            None => None,
        }
    }

    fn installation(&self) -> (r: Option<u64>) {
        match self.installation {
            Some(i) => Some(i.id),
            None => None,
        }
    }
}

#[derive(Debug, Copy, Clone, Eq, PartialEq, Ord, PartialOrd, Hash)]
pub enum WatchAction {
    Started,
}

#[derive(Debug, Clone, Eq, PartialEq, Ord, PartialOrd, Hash)]
pub struct WatchEvent {
    /// The action that was performed.
    pub action: WatchAction,
    /// The repository associated with this event.
    pub repository: Repository,
    /// The user who triggered the event.
    pub sender: User,
    /// The App installation ID. This is only present for GitHub App
    /// events.
    pub installation: Option<InstallationId>,
}

impl AppEvent for WatchEvent {
    open spec fn installation_spec(&self) -> Option<u64> {
        match self.installation {
            Some(i) => Some(i.id),
            None => None,
        }
    }

    fn installation(&self) -> (r: Option<u64>) {
        match self.installation {
            Some(i) => Some(i.id),
            None => None,
        }
    }
}

/// An event with a corresponding payload.
#[derive(Debug, Clone, Eq, PartialEq, Ord, PartialOrd, Hash)]
pub enum Event {
    Ping(PingEvent),
    CheckRun(CheckRunEvent),
    CheckSuite(CheckSuiteEvent),
    CommitComment(CommitCommentEvent),
    Create(CreateEvent),
    Delete(DeleteEvent),
    GitHubAppAuthorization(GitHubAppAuthorizationEvent),
    Gollum(GollumEvent),
    Installation(InstallationEvent),
    InstallationRepositories(InstallationRepositoriesEvent),
    IntegrationInstallation(IntegrationInstallationEvent),
    IntegrationInstallationRepositories(IntegrationInstallationRepositoriesEvent),
    IssueComment(IssueCommentEvent),
    Issues(IssuesEvent),
    Label(LabelEvent),
    PullRequest(PullRequestEvent),
    PullRequestReview(PullRequestReviewEvent),
    PullRequestReviewComment(PullRequestReviewCommentEvent),
    Push(PushEvent),
    Repository(RepositoryEvent),
    Watch(WatchEvent),
}

impl AppEvent for Event {
    open spec fn installation_spec(&self) -> Option<u64> {
        match self {
            Event::Ping(e) => e.installation_spec(),
            Event::CheckRun(e) => e.installation_spec(),
            Event::CheckSuite(e) => e.installation_spec(),
            Event::CommitComment(e) => e.installation_spec(),
            Event::Create(e) => e.installation_spec(),
            Event::Delete(e) => e.installation_spec(),
            Event::GitHubAppAuthorization(e) => e.installation_spec(),
            Event::Gollum(e) => e.installation_spec(),
            Event::Installation(e) => e.installation_spec(),
            Event::InstallationRepositories(e) => e.installation_spec(),
            Event::IntegrationInstallation(e) => e.installation_spec(),
            Event::IntegrationInstallationRepositories(e) => e.installation_spec(),
            Event::IssueComment(e) => e.installation_spec(),
            Event::Issues(e) => e.installation_spec(),
            Event::Label(e) => e.installation_spec(),
            Event::PullRequest(e) => e.installation_spec(),
            Event::PullRequestReview(e) => e.installation_spec(),
            Event::PullRequestReviewComment(e) => e.installation_spec(),
            Event::Push(e) => e.installation_spec(),
            Event::Repository(e) => e.installation_spec(),
            Event::Watch(e) => e.installation_spec(),
        }
    }

    fn installation(&self) -> (r: Option<u64>) {
        match self {
            Event::Ping(e) => e.installation(),
            Event::CheckRun(e) => e.installation(),
            Event::CheckSuite(e) => e.installation(),
            Event::CommitComment(e) => e.installation(),
            Event::Create(e) => e.installation(),
            Event::Delete(e) => e.installation(),
            Event::GitHubAppAuthorization(e) => e.installation(),
            Event::Gollum(e) => e.installation(),
            Event::Installation(e) => e.installation(),
            Event::InstallationRepositories(e) => e.installation(),
            Event::IntegrationInstallation(e) => e.installation(),
            Event::IntegrationInstallationRepositories(e) => e.installation(),
            Event::IssueComment(e) => e.installation(),
            Event::Issues(e) => e.installation(),
            Event::Label(e) => e.installation(),
            Event::PullRequest(e) => e.installation(),
            Event::PullRequestReview(e) => e.installation(),
            Event::PullRequestReviewComment(e) => e.installation(),
            Event::Push(e) => e.installation(),
            Event::Repository(e) => e.installation(),
            Event::Watch(e) => e.installation(),
        }
    }
}

} // verus!
