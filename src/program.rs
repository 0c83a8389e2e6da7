//! The operations of the ledger under the names its clients call them by.
use crate::errors::GhostErrors;
use crate::instructions::{
    DevBadge, InitConfig, RepoBadge, UpdateDevBadge, UpdateRepoBadge, VerifyDev, Vouch, applied,
    init_config_step, mint_dev_step, mint_repo_step, update_dev_step, update_repo_step,
    verify_dev_outcome, vouch_step,
};
use crate::ledger::Ledger;
use crate::state::{DevStats, RepoStats};
use vstd::prelude::*;

verus! {

/// Sets the configuration up; see [`InitConfig::init_config`].
pub fn init_config(ctx: &InitConfig, ledger: &mut Ledger, backend_pubkey: [u8; 32]) -> (r: Result<
    (),
    GhostErrors,
>)
    requires
        old(ledger).wf(),
    ensures
        final(ledger).wf(),
        applied(r, old(ledger)@, final(ledger)@, init_config_step(old(ledger)@, *ctx, backend_pubkey)),
{
    ctx.init_config(ledger, backend_pubkey)
}

/// Issues a dev credential; see [`DevBadge::mint_collection`].
pub fn mint_dev_badge(
    ctx: &DevBadge,
    ledger: &mut Ledger,
    username: [u8; 32],
    repo_count: u32,
    owned_repo_count: u32,
    total_stars: u32,
    total_commits: u32,
    prs_merged: u32,
    issues_closed: u32,
    followers: u32,
    account_age_days: u32,
    reputation_level: u8,
) -> (r: Result<(), GhostErrors>)
    requires
        old(ledger).wf(),
    ensures
        final(ledger).wf(),
        applied(
            r,
            old(ledger)@,
            final(ledger)@,
            mint_dev_step(
                old(ledger)@,
                *ctx,
            (DevStats {
                hashed_username: username,
                repo_count,
                owned_repo_count,
                total_stars,
                total_commits,
                prs_merged,
                issues_closed,
                followers,
                account_age_days,
                reputation_level,
            }),
            ),
        ),
{
    ctx.mint_collection(
        ledger,
        &username,
        repo_count,
        owned_repo_count,
        total_stars,
        total_commits,
        prs_merged,
        issues_closed,
        followers,
        account_age_days,
        reputation_level,
    )
}

/// Issues a repo credential; see [`RepoBadge::mint_repo_badge`].
pub fn mint_repo_badge(
    ctx: &RepoBadge,
    ledger: &mut Ledger,
    repo_name_padded: [u8; 32],
    username_padded: [u8; 32],
    stars: u32,
    commits: u32,
    forks: u32,
    open_issues: u32,
    is_fork: u8,
    lang1: Vec<u8>,
    lang2: Vec<u8>,
) -> (r: Result<(), GhostErrors>)
    requires
        old(ledger).wf(),
    ensures
        final(ledger).wf(),
        applied(
            r,
            old(ledger)@,
            final(ledger)@,
            mint_repo_step(
                old(ledger)@,
                *ctx,
            (RepoStats {
                repo_name_padded,
                hashed_username: username_padded,
                stars,
                commits,
                forks,
                open_issues,
                is_fork,
                lang1,
                lang2,
            }),
            ),
        ),
{
    ctx.mint_repo_badge(
        ledger,
        repo_name_padded,
        username_padded,
        stars,
        commits,
        forks,
        open_issues,
        is_fork,
        lang1,
        lang2,
    )
}

/// Refreshes a dev credential; see [`UpdateDevBadge::update_dev_badge`].
pub fn update_dev_badge(
    ctx: &UpdateDevBadge,
    ledger: &mut Ledger,
    username: [u8; 32],
    repo_count: u32,
    owned_repo_count: u32,
    total_stars: u32,
    total_commits: u32,
    prs_merged: u32,
    issues_closed: u32,
    followers: u32,
    account_age_days: u32,
    reputation_level: u8,
) -> (r: Result<(), GhostErrors>)
    requires
        old(ledger).wf(),
    ensures
        final(ledger).wf(),
        applied(
            r,
            old(ledger)@,
            final(ledger)@,
            update_dev_step(
                old(ledger)@,
                *ctx,
            (DevStats {
                hashed_username: username,
                repo_count,
                owned_repo_count,
                total_stars,
                total_commits,
                prs_merged,
                issues_closed,
                followers,
                account_age_days,
                reputation_level,
            }),
            ),
        ),
{
    ctx.update_dev_badge(
        ledger,
        &username,
        repo_count,
        owned_repo_count,
        total_stars,
        total_commits,
        prs_merged,
        issues_closed,
        followers,
        account_age_days,
        reputation_level,
    )
}

/// Refreshes a repo credential; see [`UpdateRepoBadge::update_repo_badge`].
pub fn update_repo_badge(
    ctx: &UpdateRepoBadge,
    ledger: &mut Ledger,
    repo_name_padded: [u8; 32],
    username_hashed: [u8; 32],
    stars: u32,
    commits: u32,
    forks: u32,
    open_issues: u32,
    is_fork: u8,
    lang1: Vec<u8>,
    lang2: Vec<u8>,
) -> (r: Result<(), GhostErrors>)
    requires
        old(ledger).wf(),
    ensures
        final(ledger).wf(),
        applied(
            r,
            old(ledger)@,
            final(ledger)@,
            update_repo_step(
                old(ledger)@,
                *ctx,
            (RepoStats {
                repo_name_padded,
                hashed_username: username_hashed,
                stars,
                commits,
                forks,
                open_issues,
                is_fork,
                lang1,
                lang2,
            }),
            ),
        ),
{
    ctx.update_repo_badge(
        ledger,
        repo_name_padded,
        username_hashed,
        stars,
        commits,
        forks,
        open_issues,
        is_fork,
        lang1,
        lang2,
    )
}

/// Checks a developer's tier; see [`VerifyDev::verify_dev`].
pub fn verify_dev(ctx: &VerifyDev, ledger: &Ledger, dev_addr: [u8; 32], min_lvl: u8) -> (r: Result<
    (),
    GhostErrors,
>)
    requires
        ledger.wf(),
    ensures
        r == verify_dev_outcome(ledger@, dev_addr, min_lvl),
{
    ctx.verify_dev(ledger, dev_addr, min_lvl)
}

/// Vouches for a developer; see [`Vouch::vouch_for_dev`].
pub fn vouch_for_dev(ctx: &Vouch, ledger: &mut Ledger, target_addr: [u8; 32]) -> (r: Result<
    (),
    GhostErrors,
>)
    requires
        old(ledger).wf(),
    ensures
        final(ledger).wf(),
        applied(r, old(ledger)@, final(ledger)@, vouch_step(old(ledger)@, *ctx, target_addr)),
{
    ctx.vouch_for_dev(ledger, target_addr)
}

} // verus!
