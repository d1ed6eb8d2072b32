//! What the bot hands to GitHub, and the settings it needs to do so.

use vstd::prelude::*;

verus! {

/// An issue to open: its title and its body.
pub struct IssueRequest {
    pub title: String,
    pub body: String,
}

/// The model of an `IssueRequest`.
pub struct IssueRequestView {
    pub title: Seq<char>,
    pub body: Seq<char>,
}

impl View for IssueRequest {
    type V = IssueRequestView;

    open spec fn view(&self) -> IssueRequestView {
        IssueRequestView {
            title: self.title@,
            body: self.body@,
        }
    }
}

/// The repository and the credentials that issues are filed with.
pub struct GithubConfig {
    /// A personal access token (`GITHUB_PAT`).
    pub token: String,
    /// The owner of the repository (`GITHUB_OWNER`).
    pub owner: String,
    /// The repository's name (`GITHUB_REPO`).
    pub repo: String,
}

/// A setting that is missing.
#[derive(PartialEq, Eq, Structural, Debug, Clone, Copy)]
pub enum ConfigError {
    MissingToken,
    MissingOwner,
    MissingRepo,
}

impl ConfigError {
    /// The text of the error.
    pub open spec fn text(self) -> Seq<char> {
        match self {
            ConfigError::MissingToken => "GITHUB_PAT not set"@,
            ConfigError::MissingOwner => "GITHUB_OWNER not set"@,
            ConfigError::MissingRepo => "GITHUB_REPO not set"@,
        }
    }

    /// The text of the error, as a string.
    pub fn message(&self) -> (r: String)
        ensures
            r@ == self.text(),
    {
        match self {
            ConfigError::MissingToken => String::from_str("GITHUB_PAT not set"),
            ConfigError::MissingOwner => String::from_str("GITHUB_OWNER not set"),
            ConfigError::MissingRepo => String::from_str("GITHUB_REPO not set"),
        }
    }
}

/// Assembles the settings from the values of `GITHUB_PAT`, `GITHUB_OWNER`
/// and `GITHUB_REPO` (`None` for an unset one); the first missing one, in
/// that order, is the error.
pub fn github_config(token: Option<String>, owner: Option<String>, repo: Option<String>) -> (r:
    Result<GithubConfig, ConfigError>)
    ensures
        token is None ==> r == Err::<GithubConfig, ConfigError>(ConfigError::MissingToken),
        token is Some && owner is None ==> r == Err::<GithubConfig, ConfigError>(
            ConfigError::MissingOwner,
        ),
        token is Some && owner is Some && repo is None ==> r == Err::<GithubConfig, ConfigError>(
            ConfigError::MissingRepo,
        ),
        token is Some && owner is Some && repo is Some ==> (r matches Ok(c) && c.token@
            == token->0@ && c.owner@ == owner->0@ && c.repo@ == repo->0@),
{
    match token {
        None => Err(ConfigError::MissingToken),
        Some(token) => match owner {
            None => Err(ConfigError::MissingOwner),
            Some(owner) => match repo {
                None => Err(ConfigError::MissingRepo),
                Some(repo) => Ok(GithubConfig { token, owner, repo }),
            },
        },
    }
}

} // verus!
