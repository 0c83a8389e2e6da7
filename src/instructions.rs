//! The operations on the ledger. Each takes the context the runtime hands an
//! instruction (who signed, the instructions of the transaction, the clock,
//! and the answer of the asset-issuance service where the operation calls it)
//! and either applies its whole effect or refuses with a named condition and
//! leaves the ledger as it was.
use crate::asset::{AssetRequest, RepoAttributes, config_address, derive_config_address};
use crate::auth::{InstructionSysvar, companion_check, keys_equal, verify_signature};
use crate::errors::GhostErrors;
use crate::ledger::{
    Ledger, LedgerView, MAX_LANG_LEN, derive_dev_badge_address, derive_dev_state_address,
    derive_repo_badge_address, derive_repo_state_address, derive_vouch_record_address,
    dev_badge_address, dev_state_address, repo_badge_address, repo_state_address,
    vouch_record_address,
};
use crate::message::{
    bytes_to_vec, dev_message_hash, hash_dev_message, hash_repo_message, repo_message,
    repo_message_hash,
};
use crate::state::{
    DevState, DevStats, GhostConfig, Pubkey, RepoState, RepoStats, VouchRecord, valid_tier,
};
use vstd::prelude::*;

verus! {

/// Whether an operation's result and the ledger after it match its step:
/// the step's next ledger on success, the step's error and an unchanged
/// ledger otherwise.
pub open spec fn applied(
    r: Result<(), GhostErrors>,
    before: LedgerView,
    after: LedgerView,
    step: Result<LedgerView, GhostErrors>,
) -> bool {
    match step {
        Ok(next) => r is Ok && after == next,
        Err(e) => r == Err::<(), GhostErrors>(e) && after == before,
    }
}

/// The dev credential that `dev` is issued with.
pub open spec fn issued_dev_state(dev: Pubkey, s: DevStats, now: i64) -> DevState {
    DevState {
        dev_addr: dev,
        asset_address: dev_badge_address(dev),
        hashed_username: s.hashed_username,
        repo_count: s.repo_count,
        owned_repo_count: s.owned_repo_count,
        total_stars: s.total_stars,
        total_commits: s.total_commits,
        prs_merged: s.prs_merged,
        issues_closed: s.issues_closed,
        followers: s.followers,
        account_age_days: s.account_age_days,
        reputation_level: s.reputation_level,
        verified_repos: 0,
        vouch_count: 0,
        last_updated: now,
    }
}

/// A dev credential with fresh metrics; owner, asset and counters kept.
pub open spec fn refreshed_dev_state(d: DevState, s: DevStats, now: i64) -> DevState {
    DevState {
        hashed_username: s.hashed_username,
        repo_count: s.repo_count,
        owned_repo_count: s.owned_repo_count,
        total_stars: s.total_stars,
        total_commits: s.total_commits,
        prs_merged: s.prs_merged,
        issues_closed: s.issues_closed,
        followers: s.followers,
        account_age_days: s.account_age_days,
        reputation_level: s.reputation_level,
        last_updated: now,
        ..d
    }
}

/// The repo credential of `owner` under the dev credential at `dev_state`.
pub open spec fn repo_record(owner: Pubkey, dev_state: Pubkey, s: RepoStats, now: i64) -> RepoState {
    RepoState {
        owner,
        dev_state,
        hashed_username: s.hashed_username,
        repo_name: s.repo_name_padded,
        stars: s.stars,
        commits: s.commits,
        forks: s.forks,
        open_issues: s.open_issues,
        is_fork: s.is_fork,
        lang1: s.lang1,
        lang2: s.lang2,
        last_updated: now,
    }
}

/// The context of `init_config`: the identity that signs.
#[derive(Clone, Copy, Debug, PartialEq, Eq)]
pub struct InitConfig {
    pub admin: Pubkey,
}

/// Setting the configuration up: once, and only by the upgrade authority.
pub open spec fn init_config_step(l: LedgerView, ctx: InitConfig, backend_pubkey: [u8; 32]) -> Result<
    LedgerView,
    GhostErrors,
> {
    if l.config is Some {
        Err(GhostErrors::AccountAlreadyInUse)
    } else if ctx.admin != l.upgrade_authority {
        Err(GhostErrors::UpgradeAuthorityMismatch)
    } else {
        Ok(
            LedgerView {
                config: Some(
                    GhostConfig {
                        admin: ctx.admin,
                        backend_pubkey,
                        dev_badges_minted: 0,
                        repo_badges_minted: 0,
                        vouches_count: 0,
                    },
                ),
                ..l
            },
        )
    }
}

impl InitConfig {
    /// Sets the configuration up with the key whose signatures are trusted.
    pub fn init_config(&self, ledger: &mut Ledger, backend_pubkey: [u8; 32]) -> (r: Result<
        (),
        GhostErrors,
    >)
        requires
            old(ledger).wf(),
        ensures
            final(ledger).wf(),
            applied(r, old(ledger)@, final(ledger)@, init_config_step(old(ledger)@, *self, backend_pubkey)),
    {
        if ledger.config.is_some() {
            return Err(GhostErrors::AccountAlreadyInUse);
        }
        if !keys_equal(&self.admin, &ledger.upgrade_authority) {
            return Err(GhostErrors::UpgradeAuthorityMismatch);
        }
        ledger.config = Some(
            GhostConfig {
                admin: self.admin,
                backend_pubkey,
                dev_badges_minted: 0,
                repo_badges_minted: 0,
                vouches_count: 0,
            },
        );
        Ok(())
    }
}

/// The context of `mint_dev_badge`.
#[derive(Clone, Debug, PartialEq, Eq)]
pub struct DevBadge {
    pub dev: Pubkey,
    pub instruction_sysvar: InstructionSysvar,
    pub unix_timestamp: i64,
    /// Whether the asset-issuance service created the badge asset.
    pub asset_issued: bool,
}

/// What issuing a dev credential checks before it calls the asset-issuance
/// service.
pub open spec fn mint_dev_checks(l: LedgerView, ctx: DevBadge, s: DevStats) -> Result<
    (),
    GhostErrors,
> {
    match l.config {
        None => Err(GhostErrors::ConfigNotInitialized),
        Some(config) => {
            if l.devs.contains_key(dev_state_address(ctx.dev)) {
                Err(GhostErrors::CollectionAlreadyInitialized)
            } else if !valid_tier(s.reputation_level) {
                Err(GhostErrors::ReputationLvlInvalid)
            } else {
                match companion_check(
                    ctx.instruction_sysvar,
                    config.backend_pubkey,
                    dev_message_hash(s),
                ) {
                    Err(e) => Err(e),
                    Ok(_) => {
                        if config.dev_badges_minted == u64::MAX {
                            Err(GhostErrors::CounterOverflow)
                        } else {
                            Ok(())
                        }
                    },
                }
            }
        },
    }
}

/// The collection asset that stands for the dev credential of `dev`.
pub open spec fn dev_collection_request(dev: Pubkey) -> AssetRequest {
    AssetRequest::CreateCollection {
        collection: dev_badge_address(dev),
        authority: config_address(),
        payer: dev,
        permanently_frozen: true,
        dev,
    }
}

/// Issuing a dev credential.
pub open spec fn mint_dev_step(l: LedgerView, ctx: DevBadge, s: DevStats) -> Result<
    LedgerView,
    GhostErrors,
> {
    match mint_dev_checks(l, ctx, s) {
        Err(e) => Err(e),
        Ok(_) => {
            let config = l.config->0;
            if !ctx.asset_issued {
                Err(GhostErrors::AssetIssuanceFailed)
            } else {
                Ok(
                    LedgerView {
                        config: Some(
                            GhostConfig {
                                dev_badges_minted: (config.dev_badges_minted + 1) as u64,
                                ..config
                            },
                        ),
                        devs: l.devs.insert(
                            dev_state_address(ctx.dev),
                            issued_dev_state(ctx.dev, s, ctx.unix_timestamp),
                        ),
                        ..l
                    },
                )
            }
        },
    }
}

impl DevBadge {
    /// Runs every check of issuing the signer's dev credential that comes
    /// before the asset-issuance service, and returns the call to make there.
    pub fn collection_request(
        &self,
        ledger: &Ledger,
        username: &[u8; 32],
        repo_count: u32,
        owned_repo_count: u32,
        total_stars: u32,
        total_commits: u32,
        prs_merged: u32,
        issues_closed: u32,
        followers: u32,
        account_age_days: u32,
        reputation_level: u8,
    ) -> (r: Result<AssetRequest, GhostErrors>)
        requires
            ledger.wf(),
        ensures
            match mint_dev_checks(
                ledger@,
                *self,
                (DevStats {
                        hashed_username: *username,
                        repo_count,
                        owned_repo_count,
                        total_stars,
                        total_commits,
                        prs_merged,
                        issues_closed,
                        followers,
                        account_age_days,
                        reputation_level,
                    }),
            ) {
                Ok(_) => r == Ok::<AssetRequest, GhostErrors>(dev_collection_request(self.dev)),
                Err(e) => r == Err::<AssetRequest, GhostErrors>(e),
            },
    {
        let stats = DevStats {
            hashed_username: *username,
            repo_count,
            owned_repo_count,
            total_stars,
            total_commits,
            prs_merged,
            issues_closed,
            followers,
            account_age_days,
            reputation_level,
        };
        let config = match ledger.config {
            None => return Err(GhostErrors::ConfigNotInitialized),
            Some(c) => c,
        };
        let addr = derive_dev_state_address(&self.dev);
        if ledger.dev_states.find(&addr).is_some() {
            return Err(GhostErrors::CollectionAlreadyInitialized);
        }
        if reputation_level < 1 || reputation_level > 5 {
            return Err(GhostErrors::ReputationLvlInvalid);
        }
        let hash = hash_dev_message(&stats);
        match verify_signature(&self.instruction_sysvar, &config.backend_pubkey, &hash) {
            Err(e) => return Err(e),
            Ok(_) => {},
        }
        if config.dev_badges_minted == u64::MAX {
            return Err(GhostErrors::CounterOverflow);
        }
        Ok(
            AssetRequest::CreateCollection {
                collection: derive_dev_badge_address(&self.dev),
                authority: derive_config_address(),
                payer: self.dev,
                permanently_frozen: true,
                dev: self.dev,
            },
        )
    }

    /// Issues the signer's dev credential from metrics signed by the trusted
    /// key, once the asset-issuance service created its collection asset.
    pub fn mint_collection(
        &self,
        ledger: &mut Ledger,
        username: &[u8; 32],
        repo_count: u32,
        owned_repo_count: u32,
        total_stars: u32,
        total_commits: u32,
        prs_merged: u32,
        issues_closed: u32,
        followers: u32,
        account_age_days: u32,
        reputation_level: u8,
    ) -> (r: Result<(), GhostErrors>)
        requires
            old(ledger).wf(),
        ensures
            final(ledger).wf(),
            applied(
                r,
                old(ledger)@,
                final(ledger)@,
                mint_dev_step(
                    old(ledger)@,
                    *self,
                    (DevStats {
                        hashed_username: *username,
                        repo_count,
                        owned_repo_count,
                        total_stars,
                        total_commits,
                        prs_merged,
                        issues_closed,
                        followers,
                        account_age_days,
                        reputation_level,
                    }),
                ),
            ),
    {
        match self.collection_request(
            ledger,
            username,
            repo_count,
            owned_repo_count,
            total_stars,
            total_commits,
            prs_merged,
            issues_closed,
            followers,
            account_age_days,
            reputation_level,
        ) {
            Err(e) => return Err(e),
            Ok(_) => {},
        }
        if !self.asset_issued {
            return Err(GhostErrors::AssetIssuanceFailed);
        }
        let config = match ledger.config {
            None => return Err(GhostErrors::ConfigNotInitialized),
            Some(c) => c,
        };
        let addr = derive_dev_state_address(&self.dev);
        let record = DevState {
            dev_addr: self.dev,
            asset_address: derive_dev_badge_address(&self.dev),
            hashed_username: *username,
            repo_count,
            owned_repo_count,
            total_stars,
            total_commits,
            prs_merged,
            issues_closed,
            followers,
            account_age_days,
            reputation_level,
            verified_repos: 0,
            vouch_count: 0,
            last_updated: self.unix_timestamp,
        };
        ledger.config = Some(
            GhostConfig { dev_badges_minted: config.dev_badges_minted + 1, ..config },
        );
        ledger.dev_states.insert_new(addr, record);
        assert(ledger@.devs =~= old(ledger)@.devs.insert(addr, record));
        Ok(())
    }
}

/// The context of `update_dev_badge`.
#[derive(Clone, Debug, PartialEq, Eq)]
pub struct UpdateDevBadge {
    pub dev: Pubkey,
    pub instruction_sysvar: InstructionSysvar,
    pub unix_timestamp: i64,
}

/// Refreshing the metrics of a dev credential, by its owner.
pub open spec fn update_dev_step(l: LedgerView, ctx: UpdateDevBadge, s: DevStats) -> Result<
    LedgerView,
    GhostErrors,
> {
    match l.config {
        None => Err(GhostErrors::ConfigNotInitialized),
        Some(config) => {
            let addr = dev_state_address(ctx.dev);
            if !l.devs.contains_key(addr) {
                Err(GhostErrors::AccountNotInitialized)
            } else if l.devs[addr].dev_addr != ctx.dev {
                Err(GhostErrors::IncorrectDevState)
            } else if !valid_tier(s.reputation_level) {
                Err(GhostErrors::ReputationLvlInvalid)
            } else {
                match companion_check(
                    ctx.instruction_sysvar,
                    config.backend_pubkey,
                    dev_message_hash(s),
                ) {
                    Err(e) => Err(e),
                    Ok(_) => Ok(
                        LedgerView {
                            devs: l.devs.insert(
                                addr,
                                refreshed_dev_state(l.devs[addr], s, ctx.unix_timestamp),
                            ),
                            ..l
                        },
                    ),
                }
            }
        },
    }
}

impl UpdateDevBadge {
    /// Overwrites the metrics of the signer's dev credential with freshly
    /// signed ones.
    pub fn update_dev_badge(
        &self,
        ledger: &mut Ledger,
        username: &[u8; 32],
        repo_count: u32,
        owned_repo_count: u32,
        total_stars: u32,
        total_commits: u32,
        prs_merged: u32,
        issues_closed: u32,
        followers: u32,
        account_age_days: u32,
        reputation_level: u8,
    ) -> (r: Result<(), GhostErrors>)
        requires
            old(ledger).wf(),
        ensures
            final(ledger).wf(),
            applied(
                r,
                old(ledger)@,
                final(ledger)@,
                update_dev_step(
                    old(ledger)@,
                    *self,
                    (DevStats {
                        hashed_username: *username,
                        repo_count,
                        owned_repo_count,
                        total_stars,
                        total_commits,
                        prs_merged,
                        issues_closed,
                        followers,
                        account_age_days,
                        reputation_level,
                    }),
                ),
            ),
    {
        let stats = DevStats {
            hashed_username: *username,
            repo_count,
            owned_repo_count,
            total_stars,
            total_commits,
            prs_merged,
            issues_closed,
            followers,
            account_age_days,
            reputation_level,
        };
        let config = match ledger.config {
            None => return Err(GhostErrors::ConfigNotInitialized),
            Some(c) => c,
        };
        let addr = derive_dev_state_address(&self.dev);
        let i = match ledger.dev_states.find(&addr) {
            None => return Err(GhostErrors::AccountNotInitialized),
            Some(i) => i,
        };
        let current = *ledger.dev_states.get(i);
        if !keys_equal(&current.dev_addr, &self.dev) {
            return Err(GhostErrors::IncorrectDevState);
        }
        if reputation_level < 1 || reputation_level > 5 {
            return Err(GhostErrors::ReputationLvlInvalid);
        }
        let hash = hash_dev_message(&stats);
        match verify_signature(&self.instruction_sysvar, &config.backend_pubkey, &hash) {
            Err(e) => return Err(e),
            Ok(_) => {},
        }
        let record = DevState {
            hashed_username: *username,
            repo_count,
            owned_repo_count,
            total_stars,
            total_commits,
            prs_merged,
            issues_closed,
            followers,
            account_age_days,
            reputation_level,
            last_updated: self.unix_timestamp,
            ..current
        };
        ledger.dev_states.set(i, record);
        assert(ledger@.devs =~= old(ledger)@.devs.insert(addr, record));
        Ok(())
    }
}

/// The context of `verify_dev`: the identity that asks.
#[derive(Clone, Copy, Debug, PartialEq, Eq)]
pub struct VerifyDev {
    pub verifier: Pubkey,
}

/// Whether `dev_addr` holds at least tier `min_lvl`. A tier outside one to
/// five is refused whatever the ledger holds.
pub open spec fn verify_dev_outcome(l: LedgerView, dev_addr: Pubkey, min_lvl: u8) -> Result<
    (),
    GhostErrors,
> {
    let addr = dev_state_address(dev_addr);
    if !valid_tier(min_lvl) {
        Err(GhostErrors::ReputationLvlInvalid)
    } else if !l.devs.contains_key(addr) {
        Err(GhostErrors::AccountNotInitialized)
    } else if l.devs[addr].reputation_level < min_lvl {
        Err(GhostErrors::DevVerificationFailed)
    } else {
        Ok(())
    }
}

impl VerifyDev {
    /// Succeeds exactly when `dev_addr` holds a dev credential of tier at
    /// least `min_lvl`; reads nothing else and changes nothing.
    pub fn verify_dev(&self, ledger: &Ledger, dev_addr: [u8; 32], min_lvl: u8) -> (r: Result<
        (),
        GhostErrors,
    >)
        requires
            ledger.wf(),
        ensures
            r == verify_dev_outcome(ledger@, dev_addr, min_lvl),
    {
        if min_lvl < 1 || min_lvl > 5 {
            return Err(GhostErrors::ReputationLvlInvalid);
        }
        let addr = derive_dev_state_address(&dev_addr);
        let i = match ledger.dev_states.find(&addr) {
            None => return Err(GhostErrors::AccountNotInitialized),
            Some(i) => i,
        };
        if ledger.dev_states.get(i).reputation_level < min_lvl {
            return Err(GhostErrors::DevVerificationFailed);
        }
        Ok(())
    }
}

/// The least tier from which a developer may vouch for others.
pub const MIN_VOUCHER_LEVEL: u8 = 2;

/// The context of `vouch_for_dev`.
#[derive(Clone, Copy, Debug, PartialEq, Eq)]
pub struct Vouch {
    pub voucher: Pubkey,
    pub unix_timestamp: i64,
}

/// One developer vouching for another: once per pair, never for oneself,
/// and only from tier two up.
pub open spec fn vouch_step(l: LedgerView, ctx: Vouch, target: Pubkey) -> Result<
    LedgerView,
    GhostErrors,
> {
    match l.config {
        None => Err(GhostErrors::ConfigNotInitialized),
        Some(config) => {
            let va = dev_state_address(ctx.voucher);
            let ta = dev_state_address(target);
            let vr = vouch_record_address(ctx.voucher, target);
            if !l.devs.contains_key(va) {
                Err(GhostErrors::AccountNotInitialized)
            } else if l.devs[va].dev_addr != ctx.voucher {
                Err(GhostErrors::IncorrectDevState)
            } else if l.devs[va].reputation_level < MIN_VOUCHER_LEVEL {
                Err(GhostErrors::LvlNotReached)
            } else if ctx.voucher == target {
                Err(GhostErrors::SelfVouchDenied)
            } else if !l.devs.contains_key(ta) {
                Err(GhostErrors::AccountNotInitialized)
            } else if l.vouches.contains_key(vr) {
                Err(GhostErrors::AccountAlreadyInUse)
            } else if config.vouches_count == u32::MAX || l.devs[ta].vouch_count == u64::MAX {
                Err(GhostErrors::CounterOverflow)
            } else {
                Ok(
                    LedgerView {
                        config: Some(
                            GhostConfig { vouches_count: (config.vouches_count + 1) as u32, ..config },
                        ),
                        devs: l.devs.insert(
                            ta,
                            DevState { vouch_count: (l.devs[ta].vouch_count + 1) as u64, ..l.devs[ta] },
                        ),
                        vouches: l.vouches.insert(
                            vr,
                            VouchRecord {
                                voucher: ctx.voucher,
                                voucher_level: l.devs[va].reputation_level,
                                target,
                                timestamp: ctx.unix_timestamp,
                            },
                        ),
                        ..l
                    },
                )
            }
        },
    }
}

impl Vouch {
    /// Records the signer's vouch for `target_addr` with the signer's current
    /// tier, and counts it on the target's credential.
    pub fn vouch_for_dev(&self, ledger: &mut Ledger, target_addr: [u8; 32]) -> (r: Result<
        (),
        GhostErrors,
    >)
        requires
            old(ledger).wf(),
        ensures
            final(ledger).wf(),
            applied(r, old(ledger)@, final(ledger)@, vouch_step(old(ledger)@, *self, target_addr)),
    {
        let config = match ledger.config {
            None => return Err(GhostErrors::ConfigNotInitialized),
            Some(c) => c,
        };
        let va = derive_dev_state_address(&self.voucher);
        let vi = match ledger.dev_states.find(&va) {
            None => return Err(GhostErrors::AccountNotInitialized),
            Some(i) => i,
        };
        let voucher_state = *ledger.dev_states.get(vi);
        if !keys_equal(&voucher_state.dev_addr, &self.voucher) {
            return Err(GhostErrors::IncorrectDevState);
        }
        if voucher_state.reputation_level < MIN_VOUCHER_LEVEL {
            return Err(GhostErrors::LvlNotReached);
        }
        if keys_equal(&self.voucher, &target_addr) {
            return Err(GhostErrors::SelfVouchDenied);
        }
        let ta = derive_dev_state_address(&target_addr);
        let ti = match ledger.dev_states.find(&ta) {
            None => return Err(GhostErrors::AccountNotInitialized),
            Some(i) => i,
        };
        let vr = derive_vouch_record_address(&self.voucher, &target_addr);
        if ledger.vouch_records.find(&vr).is_some() {
            return Err(GhostErrors::AccountAlreadyInUse);
        }
        let target_state = *ledger.dev_states.get(ti);
        if config.vouches_count == u32::MAX || target_state.vouch_count == u64::MAX {
            return Err(GhostErrors::CounterOverflow);
        }
        let record = VouchRecord {
            voucher: self.voucher,
            voucher_level: voucher_state.reputation_level,
            target: target_addr,
            timestamp: self.unix_timestamp,
        };
        let counted = DevState { vouch_count: target_state.vouch_count + 1, ..target_state };
        ledger.config = Some(GhostConfig { vouches_count: config.vouches_count + 1, ..config });
        ledger.dev_states.set(ti, counted);
        ledger.vouch_records.insert_new(vr, record);
        assert(ledger@.devs =~= old(ledger)@.devs.insert(ta, counted));
        assert(ledger@.vouches =~= old(ledger)@.vouches.insert(vr, record));
        Ok(())
    }
}

/// Whether a language field fits its capacity.
pub open spec fn lang_fits(lang: Seq<u8>) -> bool {
    lang.len() <= MAX_LANG_LEN
}

/// The context of `mint_repo_badge`.
#[derive(Clone, Debug, PartialEq, Eq)]
pub struct RepoBadge {
    pub dev: Pubkey,
    pub instruction_sysvar: InstructionSysvar,
    pub unix_timestamp: i64,
    /// Whether the asset-issuance service created the repo badge asset.
    pub asset_issued: bool,
}

/// What issuing a repo credential checks before it calls the asset-issuance
/// service. A fork (any non-zero flag) is refused whatever else holds.
pub open spec fn mint_repo_checks(l: LedgerView, ctx: RepoBadge, s: RepoStats) -> Result<
    (),
    GhostErrors,
> {
    if s.is_fork != 0 {
        Err(GhostErrors::ForkedRepo)
    } else {
        match l.config {
            None => Err(GhostErrors::ConfigNotInitialized),
            Some(config) => {
                let d = dev_state_address(ctx.dev);
                if !l.devs.contains_key(d) {
                    Err(GhostErrors::CollectionNotInitialized)
                } else if l.devs[d].dev_addr != ctx.dev {
                    Err(GhostErrors::IncorrectDevState)
                } else if l.repos.contains_key(repo_state_address(d, s.repo_name_padded)) {
                    Err(GhostErrors::AccountAlreadyInUse)
                } else if !lang_fits(s.lang1@) || !lang_fits(s.lang2@) {
                    Err(GhostErrors::LanguageTooLong)
                } else {
                    match companion_check(
                        ctx.instruction_sysvar,
                        config.backend_pubkey,
                        repo_message_hash(s),
                    ) {
                        Err(e) => Err(e),
                        Ok(_) => {
                            if l.devs[d].verified_repos == u64::MAX || config.repo_badges_minted
                                == u32::MAX {
                                Err(GhostErrors::CounterOverflow)
                            } else {
                                Ok(())
                            }
                        },
                    }
                }
            },
        }
    }
}

/// The attributes a repo badge shows.
pub open spec fn repo_attributes(s: RepoStats) -> RepoAttributes {
    RepoAttributes {
        repo_name: s.repo_name_padded,
        stars: s.stars,
        commits: s.commits,
        forks: s.forks,
    }
}

/// The asset that stands for the repo credential of `dev` for a repository.
pub open spec fn repo_asset_request(dev: Pubkey, s: RepoStats) -> AssetRequest {
    AssetRequest::CreateAsset {
        asset: repo_badge_address(dev_state_address(dev), s.repo_name_padded),
        collection: dev_badge_address(dev),
        authority: config_address(),
        payer: dev,
        permanently_frozen: true,
        attributes: repo_attributes(s),
    }
}

/// Issuing a repo credential under the signer's dev credential.
pub open spec fn mint_repo_step(l: LedgerView, ctx: RepoBadge, s: RepoStats) -> Result<
    LedgerView,
    GhostErrors,
> {
    match mint_repo_checks(l, ctx, s) {
        Err(e) => Err(e),
        Ok(_) => {
            let config = l.config->0;
            let d = dev_state_address(ctx.dev);
            if !ctx.asset_issued {
                Err(GhostErrors::AssetIssuanceFailed)
            } else {
                Ok(
                    LedgerView {
                        config: Some(
                            GhostConfig {
                                repo_badges_minted: (config.repo_badges_minted + 1) as u32,
                                ..config
                            },
                        ),
                        devs: l.devs.insert(
                            d,
                            DevState {
                                verified_repos: (l.devs[d].verified_repos + 1) as u64,
                                ..l.devs[d]
                            },
                        ),
                        repos: l.repos.insert(
                            repo_state_address(d, s.repo_name_padded),
                            repo_record(ctx.dev, d, s, ctx.unix_timestamp),
                        ),
                        ..l
                    },
                )
            }
        },
    }
}

impl RepoBadge {
    /// Runs every check of issuing a repo credential that comes before the
    /// asset-issuance service, and returns the call to make there.
    pub fn repo_badge_request(
        &self,
        ledger: &Ledger,
        repo_name_padded: [u8; 32],
        username_padded: [u8; 32],
        stars: u32,
        commits: u32,
        forks: u32,
        open_issues: u32,
        is_fork: u8,
        lang1: &Vec<u8>,
        lang2: &Vec<u8>,
    ) -> (r: Result<AssetRequest, GhostErrors>)
        requires
            ledger.wf(),
        ensures
            ({
                let s = (RepoStats {
                        repo_name_padded,
                        hashed_username: username_padded,
                        stars,
                        commits,
                        forks,
                        open_issues,
                        is_fork,
                        lang1: *lang1,
                        lang2: *lang2,
                    });
                match mint_repo_checks(ledger@, *self, s) {
                    Ok(_) => r == Ok::<AssetRequest, GhostErrors>(repo_asset_request(self.dev, s)),
                    Err(e) => r == Err::<AssetRequest, GhostErrors>(e),
                }
            }),
    {
        if is_fork != 0 {
            return Err(GhostErrors::ForkedRepo);
        }
        let config = match ledger.config {
            None => return Err(GhostErrors::ConfigNotInitialized),
            Some(c) => c,
        };
        let d = derive_dev_state_address(&self.dev);
        let di = match ledger.dev_states.find(&d) {
            None => return Err(GhostErrors::CollectionNotInitialized),
            Some(i) => i,
        };
        let dev_state = *ledger.dev_states.get(di);
        if !keys_equal(&dev_state.dev_addr, &self.dev) {
            return Err(GhostErrors::IncorrectDevState);
        }
        let ra = derive_repo_state_address(&d, &repo_name_padded);
        if ledger.repo_states.find(&ra).is_some() {
            return Err(GhostErrors::AccountAlreadyInUse);
        }
        if lang1.len() > MAX_LANG_LEN || lang2.len() > MAX_LANG_LEN {
            return Err(GhostErrors::LanguageTooLong);
        }
        let stats = RepoStats {
            repo_name_padded,
            hashed_username: username_padded,
            stars,
            commits,
            forks,
            open_issues,
            is_fork,
            lang1: bytes_to_vec(lang1.as_slice()),
            lang2: bytes_to_vec(lang2.as_slice()),
        };
        let hash = hash_repo_message(&stats);
        proof {
            assert(repo_message(stats) =~= repo_message(RepoStats { lang1: *lang1, lang2: *lang2, ..stats }));
        }
        match verify_signature(&self.instruction_sysvar, &config.backend_pubkey, &hash) {
            Err(e) => return Err(e),
            Ok(_) => {},
        }
        if dev_state.verified_repos == u64::MAX || config.repo_badges_minted == u32::MAX {
            return Err(GhostErrors::CounterOverflow);
        }
        Ok(
            AssetRequest::CreateAsset {
                asset: derive_repo_badge_address(&d, &repo_name_padded),
                collection: derive_dev_badge_address(&self.dev),
                authority: derive_config_address(),
                payer: self.dev,
                permanently_frozen: true,
                attributes: RepoAttributes { repo_name: repo_name_padded, stars, commits, forks },
            },
        )
    }

    /// Issues a repo credential for the signer from repository metrics signed
    /// by the trusted key, once the asset-issuance service created its asset,
    /// and counts it on the signer's dev credential.
    pub fn mint_repo_badge(
        &self,
        ledger: &mut Ledger,
        repo_name_padded: [u8; 32],
        username_padded: [u8; 32],
        stars: u32,
        commits: u32,
        forks: u32,
        open_issues: u32,
        is_fork: u8,
        lang1: Vec<u8>,
        lang2: Vec<u8>,
    ) -> (r: Result<(), GhostErrors>)
        requires
            old(ledger).wf(),
        ensures
            final(ledger).wf(),
            applied(
                r,
                old(ledger)@,
                final(ledger)@,
                mint_repo_step(
                    old(ledger)@,
                    *self,
                    (RepoStats {
                        repo_name_padded,
                        hashed_username: username_padded,
                        stars,
                        commits,
                        forks,
                        open_issues,
                        is_fork,
                        lang1: lang1,
                        lang2: lang2,
                    }),
                ),
            ),
    {
        match self.repo_badge_request(
            ledger,
            repo_name_padded,
            username_padded,
            stars,
            commits,
            forks,
            open_issues,
            is_fork,
            &lang1,
            &lang2,
        ) {
            Err(e) => return Err(e),
            Ok(_) => {},
        }
        if !self.asset_issued {
            return Err(GhostErrors::AssetIssuanceFailed);
        }
        let config = match ledger.config {
            None => return Err(GhostErrors::ConfigNotInitialized),
            Some(c) => c,
        };
        let d = derive_dev_state_address(&self.dev);
        let di = match ledger.dev_states.find(&d) {
            None => return Err(GhostErrors::CollectionNotInitialized),
            Some(i) => i,
        };
        let dev_state = *ledger.dev_states.get(di);
        let ra = derive_repo_state_address(&d, &repo_name_padded);
        let record = RepoState {
            owner: self.dev,
            dev_state: d,
            hashed_username: username_padded,
            repo_name: repo_name_padded,
            stars,
            commits,
            forks,
            open_issues,
            is_fork,
            lang1,
            lang2,
            last_updated: self.unix_timestamp,
        };
        let counted = DevState { verified_repos: dev_state.verified_repos + 1, ..dev_state };
        ledger.config = Some(
            GhostConfig { repo_badges_minted: config.repo_badges_minted + 1, ..config },
        );
        ledger.dev_states.set(di, counted);
        ledger.repo_states.insert_new(ra, record);
        assert(ledger@.devs =~= old(ledger)@.devs.insert(d, counted));
        assert(ledger@.repos =~= old(ledger)@.repos.insert(ra, record));
        Ok(())
    }
}

/// The context of `update_repo_badge`.
#[derive(Clone, Debug, PartialEq, Eq)]
pub struct UpdateRepoBadge {
    pub dev: Pubkey,
    pub instruction_sysvar: InstructionSysvar,
    pub unix_timestamp: i64,
    /// Whether the asset-issuance service refreshed the badge's attributes.
    pub asset_issued: bool,
}

/// What refreshing a repo credential checks before it calls the
/// asset-issuance service.
pub open spec fn update_repo_checks(l: LedgerView, ctx: UpdateRepoBadge, s: RepoStats) -> Result<
    (),
    GhostErrors,
> {
    if s.is_fork != 0 {
        Err(GhostErrors::ForkedRepo)
    } else {
        match l.config {
            None => Err(GhostErrors::ConfigNotInitialized),
            Some(config) => {
                let d = dev_state_address(ctx.dev);
                let ra = repo_state_address(d, s.repo_name_padded);
                if !l.devs.contains_key(d) {
                    Err(GhostErrors::AccountNotInitialized)
                } else if l.devs[d].dev_addr != ctx.dev {
                    Err(GhostErrors::IncorrectDevState)
                } else if !l.repos.contains_key(ra) {
                    Err(GhostErrors::AccountNotInitialized)
                } else if l.repos[ra].dev_state != d {
                    Err(GhostErrors::DevBadgeMismatch)
                } else if !lang_fits(s.lang1@) || !lang_fits(s.lang2@) {
                    Err(GhostErrors::LanguageTooLong)
                } else {
                    companion_check(ctx.instruction_sysvar, config.backend_pubkey, repo_message_hash(s))
                }
            },
        }
    }
}

/// The refresh of the attributes of the asset of `dev`'s repo credential.
pub open spec fn repo_attribute_update(dev: Pubkey, s: RepoStats) -> AssetRequest {
    AssetRequest::UpdateAttributes {
        asset: repo_badge_address(dev_state_address(dev), s.repo_name_padded),
        collection: dev_badge_address(dev),
        authority: config_address(),
        payer: dev,
        attributes: repo_attributes(s),
    }
}

/// Refreshing a repo credential, by the owner of its parent dev credential.
pub open spec fn update_repo_step(l: LedgerView, ctx: UpdateRepoBadge, s: RepoStats) -> Result<
    LedgerView,
    GhostErrors,
> {
    match update_repo_checks(l, ctx, s) {
        Err(e) => Err(e),
        Ok(_) => {
            let ra = repo_state_address(dev_state_address(ctx.dev), s.repo_name_padded);
            if !ctx.asset_issued {
                Err(GhostErrors::AssetIssuanceFailed)
            } else {
                Ok(
                    LedgerView {
                        repos: l.repos.insert(
                            ra,
                            repo_record(
                                l.repos[ra].owner,
                                l.repos[ra].dev_state,
                                s,
                                ctx.unix_timestamp,
                            ),
                        ),
                        ..l
                    },
                )
            }
        },
    }
}

impl UpdateRepoBadge {
    /// Runs every check of refreshing a repo credential that comes before the
    /// asset-issuance service, and returns the call to make there.
    pub fn repo_update_request(
        &self,
        ledger: &Ledger,
        repo_name_padded: [u8; 32],
        username_hashed: [u8; 32],
        stars: u32,
        commits: u32,
        forks: u32,
        open_issues: u32,
        is_fork: u8,
        lang1: &Vec<u8>,
        lang2: &Vec<u8>,
    ) -> (r: Result<AssetRequest, GhostErrors>)
        requires
            ledger.wf(),
        ensures
            ({
                let s = (RepoStats {
                        repo_name_padded,
                        hashed_username: username_hashed,
                        stars,
                        commits,
                        forks,
                        open_issues,
                        is_fork,
                        lang1: *lang1,
                        lang2: *lang2,
                    });
                match update_repo_checks(ledger@, *self, s) {
                    Ok(_) => r == Ok::<AssetRequest, GhostErrors>(repo_attribute_update(self.dev, s)),
                    Err(e) => r == Err::<AssetRequest, GhostErrors>(e),
                }
            }),
    {
        if is_fork != 0 {
            return Err(GhostErrors::ForkedRepo);
        }
        let config = match ledger.config {
            None => return Err(GhostErrors::ConfigNotInitialized),
            Some(c) => c,
        };
        let d = derive_dev_state_address(&self.dev);
        let di = match ledger.dev_states.find(&d) {
            None => return Err(GhostErrors::AccountNotInitialized),
            Some(i) => i,
        };
        if !keys_equal(&ledger.dev_states.get(di).dev_addr, &self.dev) {
            return Err(GhostErrors::IncorrectDevState);
        }
        let ra = derive_repo_state_address(&d, &repo_name_padded);
        let ri = match ledger.repo_states.find(&ra) {
            None => return Err(GhostErrors::AccountNotInitialized),
            Some(i) => i,
        };
        if !keys_equal(&ledger.repo_states.get(ri).dev_state, &d) {
            return Err(GhostErrors::DevBadgeMismatch);
        }
        if lang1.len() > MAX_LANG_LEN || lang2.len() > MAX_LANG_LEN {
            return Err(GhostErrors::LanguageTooLong);
        }
        let stats = RepoStats {
            repo_name_padded,
            hashed_username: username_hashed,
            stars,
            commits,
            forks,
            open_issues,
            is_fork,
            lang1: bytes_to_vec(lang1.as_slice()),
            lang2: bytes_to_vec(lang2.as_slice()),
        };
        let hash = hash_repo_message(&stats);
        proof {
            assert(repo_message(stats) =~= repo_message(RepoStats { lang1: *lang1, lang2: *lang2, ..stats }));
        }
        match verify_signature(&self.instruction_sysvar, &config.backend_pubkey, &hash) {
            Err(e) => return Err(e),
            Ok(_) => {},
        }
        Ok(
            AssetRequest::UpdateAttributes {
                asset: derive_repo_badge_address(&d, &repo_name_padded),
                collection: derive_dev_badge_address(&self.dev),
                authority: derive_config_address(),
                payer: self.dev,
                attributes: RepoAttributes { repo_name: repo_name_padded, stars, commits, forks },
            },
        )
    }

    /// Overwrites the metrics of one of the signer's repo credentials with
    /// freshly signed ones, once the asset-issuance service refreshed the
    /// badge's attributes; owner and parent are kept.
    pub fn update_repo_badge(
        &self,
        ledger: &mut Ledger,
        repo_name_padded: [u8; 32],
        username_hashed: [u8; 32],
        stars: u32,
        commits: u32,
        forks: u32,
        open_issues: u32,
        is_fork: u8,
        lang1: Vec<u8>,
        lang2: Vec<u8>,
    ) -> (r: Result<(), GhostErrors>)
        requires
            old(ledger).wf(),
        ensures
            final(ledger).wf(),
            applied(
                r,
                old(ledger)@,
                final(ledger)@,
                update_repo_step(
                    old(ledger)@,
                    *self,
                    (RepoStats {
                        repo_name_padded,
                        hashed_username: username_hashed,
                        stars,
                        commits,
                        forks,
                        open_issues,
                        is_fork,
                        lang1: lang1,
                        lang2: lang2,
                    }),
                ),
            ),
    {
        match self.repo_update_request(
            ledger,
            repo_name_padded,
            username_hashed,
            stars,
            commits,
            forks,
            open_issues,
            is_fork,
            &lang1,
            &lang2,
        ) {
            Err(e) => return Err(e),
            Ok(_) => {},
        }
        if !self.asset_issued {
            return Err(GhostErrors::AssetIssuanceFailed);
        }
        let d = derive_dev_state_address(&self.dev);
        let ra = derive_repo_state_address(&d, &repo_name_padded);
        let ri = match ledger.repo_states.find(&ra) {
            None => return Err(GhostErrors::AccountNotInitialized),
            Some(i) => i,
        };
        let owner = ledger.repo_states.get(ri).owner;
        let parent = ledger.repo_states.get(ri).dev_state;
        let record = RepoState {
            owner,
            dev_state: parent,
            hashed_username: username_hashed,
            repo_name: repo_name_padded,
            stars,
            commits,
            forks,
            open_issues,
            is_fork,
            lang1,
            lang2,
            last_updated: self.unix_timestamp,
        };
        ledger.repo_states.set(ri, record);
        assert(ledger@.repos =~= old(ledger)@.repos.insert(ra, record));
        Ok(())
    }
}

} // verus!
