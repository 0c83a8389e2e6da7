//! Plain data exchanged with the code-hosting service, the session store and
//! the browser client.
use vstd::prelude::*;

verus! {

/// A login session: its id, the access token it holds and whose it is.
#[derive(Clone, Debug, PartialEq, Eq)]
pub struct Session {
    pub session_id: String,
    pub access_token: String,
    pub username: String,
}

/// A repository as listed among a user's repositories.
#[derive(Clone, Debug, PartialEq, Eq)]
pub struct Repo {
    pub name: String,
    pub owner: Owner,
    pub fork: bool,
    pub stargazers_count: u32,
}

/// The owner of a repository.
#[derive(Clone, Debug, PartialEq, Eq)]
pub struct Owner {
    pub login: String,
}

/// A contributor of a repository with their number of commits.
#[derive(Clone, Debug, PartialEq, Eq)]
pub struct Contributor {
    pub login: String,
    pub contributions: u32,
}

/// The details of a single repository.
#[derive(Clone, Debug, PartialEq, Eq)]
pub struct RepoInfo {
    pub stargazers_count: u32,
    pub owner: Owner,
    pub forks_count: u32,
    pub fork: bool,
    pub open_issues_count: u32,
}

/// The query of a repository-metrics request.
#[derive(Clone, Debug, PartialEq, Eq)]
pub struct RepoQuery {
    pub repo: String,
}

/// The query of the login callback.
#[derive(Clone, Debug, PartialEq, Eq)]
pub struct CodeQuery {
    pub code: String,
}

/// The answer to an access-token exchange.
#[derive(Clone, Debug, PartialEq, Eq)]
pub struct TokenResponse {
    pub access_token: String,
    pub token_type: String,
    pub scope: String,
}

/// The profile of the logged-in user.
#[derive(Clone, Debug, PartialEq, Eq)]
pub struct GithubUser {
    pub login: String,
    pub followers: u32,
    pub created_at: String,
}

/// Signed developer metrics, as handed to the client to submit.
#[derive(Clone, Debug, PartialEq, Eq)]
pub struct DevMetrics {
    pub hashed_username: Vec<u8>,
    pub repo_count: u32,
    pub owned_repo_count: u32,
    pub total_stars: u32,
    pub total_commit: u32,
    pub prs_merged: u32,
    pub issues_closed: u32,
    pub followers: u32,
    pub account_age_days: u32,
    pub reputation_level: u8,
    pub signature: Vec<u8>,
    pub public_key_bytes: Vec<u8>,
    pub signed_message: Vec<u8>,
}

/// Signed repository metrics, as handed to the client to submit.
#[derive(Clone, Debug, PartialEq, Eq)]
pub struct RepoMetrics {
    pub hashed_username: Vec<u8>,
    pub repo_name_bytes: Vec<u8>,
    pub lang1_bytes: Vec<u8>,
    pub lang2_bytes: Vec<u8>,
    pub stars: u32,
    pub commits: u32,
    pub fork_count: u32,
    pub issues_open_count: u32,
    pub is_fork: u8,
    pub signature: Vec<u8>,
    pub public_key_bytes: Vec<u8>,
    pub signed_message: Vec<u8>,
}

/// Whether the client is logged in, and as whom.
#[derive(Clone, Debug, PartialEq, Eq)]
pub struct AuthStatus {
    pub authenticated: bool,
    pub username: Option<String>,
}

} // verus!
