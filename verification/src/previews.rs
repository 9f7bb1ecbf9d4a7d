//! API previews: opt-in features selected through the `Accept` header.

use vstd::prelude::*;

verus! {

/// API previews.
#[derive(Debug, Copy, Clone, Eq, PartialEq, Ord, PartialOrd, Hash)]
pub enum Preview {
    /// Download repositories from your GitHub user or organization account.
    Wyandotte,
    /// Import source repositories with the API version of the Importer.
    BarredRock,
    /// Exercise greater control over deployments.
    AntMan,
    /// Manage reactions for commits, issues, and comments.
    SquirrelGirl,
    /// Get a list of events for an issue or pull request.
    Mockingbird,
    /// Get more information about your Pages site.
    MisterFantastic,
    /// Manage integrations through the API.
    MachineMan,
    /// Manage projects.
    Inertia,
    /// Search commits.
    Cloak,
    /// Retrieve community profile metrics for any public repository.
    BlackPanther,
    /// Users can block other users; organizations can block users, too.
    GiantSentryFist,
    /// View a list of repository topics in calls that return repository
    /// results.
    Mercy,
    /// View all codes of conduct, or get the one a repository has.
    ScarletWitch,
    /// Include nested team content in team payloads.
    Hellcat,
    /// Transfer a repository to an organization or user.
    Nightshade,
    /// Add a reason when you lock an issue.
    SailorV,
    /// Invite new users to an organization through the API.
    Dazzler,
    /// Manage team discussions and team discussion comments.
    Echo,
    /// Use emoji in label names, add label descriptions, and search for
    /// labels in a repository.
    Symmetra,
    /// Manage the setting for requiring signed commits on protected
    /// branches.
    Zzzax,
    /// Require multiple approving reviews for a pull request.
    LukeCage,
    /// Retrieve information from someone's hovercard.
    Hagar,
    /// Allows an app to run external checks on a repository's code.
    Antiope,
    /// Issue events and issue timeline events return the project card
    /// field for project-related events.
    Starfox,
    /// App manifests allow people to create preconfigured apps.
    Fury,
    /// Update the environment of a deployment status; use the in-progress
    /// and queued states.
    Flash,
    /// Configure which types of repositories organization members can
    /// create.
    Surtur,
    /// Provide more information for URLs that link to registered domains
    /// with the Content Attachments API.
    Corsair,
    /// Temporarily restrict interactions for repositories or
    /// organizations.
    Sombra,
    /// See whether a pull request is in draft state.
    ShadowCat,
    /// Enable or disable Pages through the Pages API.
    Switcheroo,
    /// List branches or pull requests for a commit.
    Groot,
    /// Owners of apps can uninstall an app.
    Gambit,
}

impl Preview {
    /// The kebab-case name of the preview.
    pub open spec fn name_spec(self) -> Seq<char> {
        match self {
            Preview::Wyandotte => "wyandotte"@,
            Preview::BarredRock => "barred-rock"@,
            Preview::AntMan => "ant-man"@,
            Preview::SquirrelGirl => "squirrel-girl"@,
            Preview::Mockingbird => "mocking-bird"@,
            Preview::MisterFantastic => "mister-fantastic"@,
            Preview::MachineMan => "machine-man"@,
            Preview::Inertia => "inertia"@,
            Preview::Cloak => "clock"@,
            Preview::BlackPanther => "black-panther"@,
            Preview::GiantSentryFist => "giant-sentry-fist"@,
            Preview::Mercy => "mercy"@,
            Preview::ScarletWitch => "scarlet-witch"@,
            Preview::Hellcat => "hellcat"@,
            Preview::Nightshade => "nightshade"@,
            Preview::SailorV => "sailor-v"@,
            Preview::Dazzler => "dazzler"@,
            Preview::Echo => "echo"@,
            Preview::Symmetra => "symmetra"@,
            Preview::Zzzax => "zzzax"@,
            Preview::LukeCage => "luke-cage"@,
            Preview::Hagar => "hagar"@,
            Preview::Antiope => "antiope"@,
            Preview::Starfox => "starfox"@,
            Preview::Fury => "fury"@,
            Preview::Flash => "flash"@,
            Preview::Surtur => "surtur"@,
            Preview::Corsair => "corsair"@,
            Preview::Sombra => "sombra"@,
            Preview::ShadowCat => "shadow-cat"@,
            Preview::Switcheroo => "switcheroo"@,
            Preview::Groot => "groot"@,
            Preview::Gambit => "gambit"@,
        }
    }

    /// The media type of the preview, for the `Accept` header of requests.
    pub open spec fn media_type_spec(self) -> Seq<char> {
        "application/vnd.github."@ + self.name_spec() + "-preview+json"@
    }

    /// Returns the kebab-case name of the preview.
    pub fn name(self) -> (r: &'static str)
        ensures
            r@ == self.name_spec(),
    {
        match self {
            Preview::Wyandotte => "wyandotte",
            Preview::BarredRock => "barred-rock",
            Preview::AntMan => "ant-man",
            Preview::SquirrelGirl => "squirrel-girl",
            Preview::Mockingbird => "mocking-bird",
            Preview::MisterFantastic => "mister-fantastic",
            Preview::MachineMan => "machine-man",
            Preview::Inertia => "inertia",
            Preview::Cloak => "clock",
            Preview::BlackPanther => "black-panther",
            Preview::GiantSentryFist => "giant-sentry-fist",
            Preview::Mercy => "mercy",
            Preview::ScarletWitch => "scarlet-witch",
            Preview::Hellcat => "hellcat",
            Preview::Nightshade => "nightshade",
            Preview::SailorV => "sailor-v",
            Preview::Dazzler => "dazzler",
            Preview::Echo => "echo",
            Preview::Symmetra => "symmetra",
            Preview::Zzzax => "zzzax",
            Preview::LukeCage => "luke-cage",
            Preview::Hagar => "hagar",
            Preview::Antiope => "antiope",
            Preview::Starfox => "starfox",
            Preview::Fury => "fury",
            Preview::Flash => "flash",
            Preview::Surtur => "surtur",
            Preview::Corsair => "corsair",
            Preview::Sombra => "sombra",
            Preview::ShadowCat => "shadow-cat",
            Preview::Switcheroo => "switcheroo",
            Preview::Groot => "groot",
            Preview::Gambit => "gambit",
        }
    }

    /// Returns the media type for the preview. This can be used for the
    /// `Accept` header in requests.
    pub fn media_type(self) -> (r: String)
        ensures
            r@ == self.media_type_spec(),
    {
        String::from_str("application/vnd.github.").concat(self.name()).concat("-preview+json")
    }
}

} // verus!
