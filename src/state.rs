//! The records that the ledger holds.
use vstd::prelude::*;

verus! {

/// A 32-byte identity or record address.
pub type Pubkey = [u8; 32];

/// The singleton configuration: who set it up, whose signatures are trusted,
/// and how much has been issued.
#[derive(Clone, Copy, Debug, PartialEq, Eq)]
pub struct GhostConfig {
    pub admin: Pubkey,
    pub backend_pubkey: [u8; 32],
    pub dev_badges_minted: u64,
    pub repo_badges_minted: u32,
    pub vouches_count: u32,
}

/// A developer's credential: the signed metrics and the counters that other
/// operations keep.
#[derive(Clone, Copy, Debug, PartialEq, Eq)]
pub struct DevState {
    pub dev_addr: Pubkey,
    pub asset_address: Pubkey,
    pub hashed_username: [u8; 32],
    pub repo_count: u32,
    pub owned_repo_count: u32,
    pub total_stars: u32,
    pub total_commits: u32,
    pub prs_merged: u32,
    pub issues_closed: u32,
    pub followers: u32,
    pub account_age_days: u32,
    pub reputation_level: u8,
    pub verified_repos: u64,
    pub vouch_count: u64,
    pub last_updated: i64,
}

/// A credential for one repository of one developer. `dev_state` is the
/// address of the parent dev credential.
#[derive(Clone, Debug, PartialEq, Eq)]
pub struct RepoState {
    pub owner: Pubkey,
    pub dev_state: Pubkey,
    pub hashed_username: [u8; 32],
    pub repo_name: [u8; 32],
    pub stars: u32,
    pub commits: u32,
    pub forks: u32,
    pub open_issues: u32,
    pub is_fork: u8,
    pub lang1: Vec<u8>,
    pub lang2: Vec<u8>,
    pub last_updated: i64,
}

/// One developer's endorsement of another, with the voucher's tier at the time.
#[derive(Clone, Copy, Debug, PartialEq, Eq)]
pub struct VouchRecord {
    pub voucher: Pubkey,
    pub voucher_level: u8,
    pub target: Pubkey,
    pub timestamp: i64,
}

/// The metrics a dev credential is issued or updated with, as the trusted
/// signer signed them.
#[derive(Clone, Copy, Debug, PartialEq, Eq)]
pub struct DevStats {
    pub hashed_username: [u8; 32],
    pub repo_count: u32,
    pub owned_repo_count: u32,
    pub total_stars: u32,
    pub total_commits: u32,
    pub prs_merged: u32,
    pub issues_closed: u32,
    pub followers: u32,
    pub account_age_days: u32,
    pub reputation_level: u8,
}

/// The metrics a repo credential is issued or updated with, as the trusted
/// signer signed them.
#[derive(Clone, Debug, PartialEq, Eq)]
pub struct RepoStats {
    pub repo_name_padded: [u8; 32],
    pub hashed_username: [u8; 32],
    pub stars: u32,
    pub commits: u32,
    pub forks: u32,
    pub open_issues: u32,
    pub is_fork: u8,
    pub lang1: Vec<u8>,
    pub lang2: Vec<u8>,
}

/// The signed metrics that a dev credential holds.
pub open spec fn dev_stats_of(d: DevState) -> DevStats {
    DevStats {
        hashed_username: d.hashed_username,
        repo_count: d.repo_count,
        owned_repo_count: d.owned_repo_count,
        total_stars: d.total_stars,
        total_commits: d.total_commits,
        prs_merged: d.prs_merged,
        issues_closed: d.issues_closed,
        followers: d.followers,
        account_age_days: d.account_age_days,
        reputation_level: d.reputation_level,
    }
}

/// The signed metrics that a repo credential holds.
pub open spec fn repo_stats_of(r: RepoState) -> RepoStats {
    RepoStats {
        repo_name_padded: r.repo_name,
        hashed_username: r.hashed_username,
        stars: r.stars,
        commits: r.commits,
        forks: r.forks,
        open_issues: r.open_issues,
        is_fork: r.is_fork,
        lang1: r.lang1,
        lang2: r.lang2,
    }
}

/// A reputation tier, one to five.
pub open spec fn valid_tier(t: u8) -> bool {
    1 <= t <= 5
}

} // verus!
