//! The signed payloads the client submits: metrics computed from what the
//! code-hosting service reported, laid out and signed by the trusted signer.
use crate::crypto::{ed25519_public_of, ed25519_signature_of, sha256_of};
use crate::message::{dev_message_hash, repo_message_of};
use crate::metrics::{
    account_age_days, age_in_days, clamp_u32, commits_by, compute_dev_metrics,
    contributions_of, get_reputation_level, non_fork_count, owned_stars, parse_utc_timestamp,
    reputation_level_of, top_language_fields, top_languages, total_of, utc_timestamp_of,
};
use crate::models::{Contributor, DevMetrics, GithubUser, Repo, RepoInfo, RepoMetrics};
use crate::signer::{
    pad_repo_name, padded_name, sign_dev_badge_metrics, sign_repo_badge_metrics,
    signer_public_key,
};
use crate::state::DevStats;
use crate::message::bytes_to_vec;
use vstd::prelude::*;
use vstd::utf8::encode_utf8;

verus! {

/// The signed dev metrics of `username`, from their repositories, the commits
/// they made to each, their merged pull requests and closed issues, and their
/// profile, seen at `now` (seconds since the epoch). None when the profile's
/// creation date is not a date-time.
pub fn dev_metrics_payload(
    secret: &[u8; 32],
    username: &String,
    repos: &Vec<Repo>,
    commits_per_repo: &Vec<u32>,
    prs_merged: u32,
    issues_closed: u32,
    user: &GithubUser,
    now: i64,
) -> (r: Option<DevMetrics>)
    ensures
        r is Some <==> utc_timestamp_of(user.created_at@) is Some,
        r is Some ==> ({
            let m = r->0;
            let age = age_in_days(utc_timestamp_of(user.created_at@)->0, now);
            let repo_count = clamp_u32(repos@.len() as int);
            let commits = clamp_u32(total_of(commits_per_repo@));
            let hashed = sha256_of(encode_utf8(username@));
            &&& m.repo_count == repo_count
            &&& m.owned_repo_count == clamp_u32(non_fork_count(repos@))
            &&& m.total_stars == clamp_u32(owned_stars(repos@, username@))
            &&& m.total_commit == commits
            &&& m.prs_merged == prs_merged
            &&& m.issues_closed == issues_closed
            &&& m.followers == user.followers
            &&& m.account_age_days == age
            &&& m.reputation_level == reputation_level_of(repo_count, commits, age)
            &&& m.hashed_username@ == hashed@
            &&& m.signed_message@ == dev_message_hash(
                (DevStats {
                    hashed_username: hashed,
                    repo_count: m.repo_count,
                    owned_repo_count: m.owned_repo_count,
                    total_stars: m.total_stars,
                    total_commits: m.total_commit,
                    prs_merged,
                    issues_closed,
                    followers: m.followers,
                    account_age_days: age,
                    reputation_level: m.reputation_level,
                }),
            )@
            &&& m.signature@ == ed25519_signature_of(*secret, m.signed_message@)@
            &&& m.public_key_bytes@ == ed25519_public_of(*secret)@
        }),
{
    let created = match parse_utc_timestamp(user.created_at.as_str()) {
        None => return None,
        Some(t) => t,
    };
    let (repo_count, owned_repo_count, total_commits, stars) = compute_dev_metrics(
        repos,
        commits_per_repo,
        username,
    );
    let age = account_age_days(created, now);
    let level = get_reputation_level(repo_count, total_commits, age);
    let (signature, hashed_username, signed_message) = sign_dev_badge_metrics(
        secret,
        username.as_str(),
        repo_count,
        total_commits,
        owned_repo_count,
        stars,
        prs_merged,
        issues_closed,
        user.followers,
        age,
        level,
    );
    Some(
        DevMetrics {
            hashed_username: bytes_to_vec(&hashed_username),
            repo_count,
            owned_repo_count,
            total_stars: stars,
            total_commit: total_commits,
            prs_merged,
            issues_closed,
            followers: user.followers,
            account_age_days: age,
            reputation_level: level,
            signature,
            public_key_bytes: signer_public_key(secret),
            signed_message,
        },
    )
}

/// The signed metrics of the repository `repo_name` of `username`, from its
/// details, its languages with their sizes in bytes, and its contributors.
/// None when `username` does not own the repository.
pub fn repo_metrics_payload(
    secret: &[u8; 32],
    username: &String,
    repo_name: &String,
    info: &RepoInfo,
    languages: &Vec<(String, u64)>,
    contributors: &Vec<Contributor>,
) -> (r: Option<RepoMetrics>)
    ensures
        r is Some <==> info.owner.login@ == username@,
        r is Some ==> ({
            let m = r->0;
            let hashed = sha256_of(encode_utf8(username@));
            let name = padded_name(encode_utf8(repo_name@));
            &&& m.stars == info.stargazers_count
            &&& m.commits == contributions_of(contributors@, username@)
            &&& m.fork_count == info.forks_count
            &&& m.issues_open_count == info.open_issues_count
            &&& m.is_fork == (if info.fork {
                1u8
            } else {
                0u8
            })
            &&& (m.lang1_bytes@, m.lang2_bytes@) == top_language_fields(languages@)
            &&& m.repo_name_bytes@ == name
            &&& m.hashed_username@ == hashed@
            &&& m.signed_message@ == sha256_of(
                repo_message_of(
                    hashed@,
                    name,
                    m.lang1_bytes@,
                    m.lang2_bytes@,
                    m.stars,
                    m.commits,
                    m.fork_count,
                    m.issues_open_count,
                    m.is_fork,
                ),
            )@
            &&& m.signature@ == ed25519_signature_of(*secret, m.signed_message@)@
            &&& m.public_key_bytes@ == ed25519_public_of(*secret)@
        }),
{
    if info.owner.login != *username {
        return None;
    }
    let (lang1, lang2) = top_languages(languages);
    let commits = commits_by(contributors, username);
    let is_fork: u8 = if info.fork {
        1
    } else {
        0
    };
    let (signature, hashed_username, signed_message) = sign_repo_badge_metrics(
        secret,
        username.as_str(),
        repo_name.as_str(),
        &lang1,
        &lang2,
        info.stargazers_count,
        commits,
        info.forks_count,
        info.open_issues_count,
        is_fork,
    );
    let name = pad_repo_name(repo_name.as_str().as_bytes());
    Some(
        RepoMetrics {
            hashed_username: bytes_to_vec(&hashed_username),
            repo_name_bytes: bytes_to_vec(&name),
            lang1_bytes: lang1,
            lang2_bytes: lang2,
            stars: info.stargazers_count,
            commits,
            fork_count: info.forks_count,
            issues_open_count: info.open_issues_count,
            is_fork,
            signature,
            public_key_bytes: signer_public_key(secret),
            signed_message,
        },
    )
}

} // verus!
