//! Tests for the schema types: event names, previews, actions, and the
//! parsing of a user payload.

use github_types::app::AppEvent;
use github_types::events::CheckSuiteEventAction;
use github_types::events::EventType;
use github_types::events::IntegrationInstallationEvent;
use github_types::previews::Preview;
use github_types::user::User;

#[test]
fn test_user_parsing() {
    // value from: https://developer.github.com/v3/pulls/#list-pull-requests
    let data = r#"{
        "login": "hubot",
        "id": 1,
        "node_id": "MDQ6VXNlcjE=",
        "avatar_url": "https://github.com/images/error/hubot_happy.gif",
        "gravatar_id": "",
        "url": "https://api.github.com/users/hubot",
        "html_url": "https://github.com/hubot",
        "followers_url": "https://api.github.com/users/hubot/followers",
        "following_url": "https://api.github.com/users/hubot/following{/other_user}",
        "gists_url": "https://api.github.com/users/hubot/gists{/gist_id}",
        "starred_url": "https://api.github.com/users/hubot/starred{/owner}{/repo}",
        "subscriptions_url": "https://api.github.com/users/hubot/subscriptions",
        "organizations_url": "https://api.github.com/users/hubot/orgs",
        "repos_url": "https://api.github.com/users/hubot/repos",
        "events_url": "https://api.github.com/users/hubot/events{/privacy}",
        "received_events_url": "https://api.github.com/users/hubot/received_events",
        "type": "User",
        "site_admin": true
      }"#;
    let value: serde_json::Value = serde_json::from_str(data).unwrap();
    let field = |name: &str| value[name].as_str().unwrap().to_string();
    let user = User {
        login: field("login"),
        id: value["id"].as_u64().unwrap(),
        avatar_url: field("avatar_url"),
        gravatar_id: field("gravatar_id"),
        url: field("url"),
        html_url: field("html_url"),
        followers_url: field("followers_url"),
        following_url: field("following_url"),
        gists_url: field("gists_url"),
        starred_url: field("starred_url"),
        subscriptions_url: field("subscriptions_url"),
        organizations_url: field("organizations_url"),
        repos_url: field("repos_url"),
        events_url: field("events_url"),
        received_events_url: field("received_events_url"),
        site_admin: value["site_admin"].as_bool().unwrap(),
    };
    assert_eq!(user.login, "hubot");
    assert_eq!(user.id, 1u64);
    assert_eq!(
        user.avatar_url,
        "https://github.com/images/error/hubot_happy.gif"
    );
    assert_eq!(user.gravatar_id, "");
    assert_eq!(user.url, "https://api.github.com/users/hubot");
    assert_eq!(user.html_url, "https://github.com/hubot");
    assert_eq!(
        user.followers_url,
        "https://api.github.com/users/hubot/followers"
    );
    assert_eq!(
        user.following_url,
        "https://api.github.com/users/hubot/following{/other_user}"
    );
    assert_eq!(
        user.gists_url,
        "https://api.github.com/users/hubot/gists{/gist_id}"
    );
    assert_eq!(
        user.starred_url,
        "https://api.github.com/users/hubot/starred{/owner}{/repo}"
    );
    assert_eq!(
        user.subscriptions_url,
        "https://api.github.com/users/hubot/subscriptions"
    );
    assert_eq!(
        user.organizations_url,
        "https://api.github.com/users/hubot/orgs"
    );
    assert_eq!(user.repos_url, "https://api.github.com/users/hubot/repos");
    assert_eq!(
        user.events_url,
        "https://api.github.com/users/hubot/events{/privacy}"
    );
    assert_eq!(
        user.received_events_url,
        "https://api.github.com/users/hubot/received_events"
    );
    assert_eq!(user.site_admin, true);
}

#[test]
fn event_type_names_round_trip() {
    let pairs = [
        (EventType::Wildcard, "*"),
        (EventType::Ping, "ping"),
        (EventType::CheckRun, "check_run"),
        (EventType::CheckSuite, "check_suite"),
        (EventType::IntegrationInstallationRepositories, "integration_installation_repositories"),
        (EventType::PullRequestReview, "pull_request_review"),
        (EventType::PullRequestReviewComment, "pull_request_review_comment"),
        (EventType::Push, "push"),
        (EventType::Watch, "watch"),
    ];
    for (event, name) in pairs {
        assert_eq!(event.name(), name);
        assert_eq!(EventType::from_name(name), Ok(event));
        assert_eq!(name.parse::<EventType>(), Ok(event));
    }
}

#[test]
fn unknown_event_names_are_rejected() {
    assert_eq!(EventType::from_name("pong"), Err("invalid GitHub event"));
    assert_eq!(EventType::from_name(""), Err("invalid GitHub event"));
    assert_eq!(EventType::from_name("Push"), Err("invalid GitHub event"));
}

#[test]
fn preview_names_and_media_types() {
    assert_eq!(Preview::Wyandotte.name(), "wyandotte");
    assert_eq!(Preview::Mockingbird.name(), "mocking-bird");
    assert_eq!(Preview::Cloak.name(), "clock");
    assert_eq!(Preview::SquirrelGirl.name(), "squirrel-girl");
    assert_eq!(Preview::Gambit.name(), "gambit");
    assert_eq!(
        Preview::Antiope.media_type(),
        "application/vnd.github.antiope-preview+json"
    );
    assert_eq!(
        Preview::LukeCage.media_type(),
        "application/vnd.github.luke-cage-preview+json"
    );
}

#[test]
fn check_suite_actions() {
    assert!(CheckSuiteEventAction::Requested.is_requested());
    assert!(CheckSuiteEventAction::Rerequested.is_requested());
    assert!(!CheckSuiteEventAction::Completed.is_requested());
    assert!(CheckSuiteEventAction::Completed.is_completed());
    assert!(!CheckSuiteEventAction::Requested.is_completed());
    assert!(!CheckSuiteEventAction::Rerequested.is_completed());
}

#[test]
fn deprecated_events_carry_no_installation() {
    let event = IntegrationInstallationEvent {};
    assert_eq!(event.installation(), None);
}
