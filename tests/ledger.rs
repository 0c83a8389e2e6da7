use ghost_check::auth::{
    new_ed25519_instruction, verify_signature, Instruction, InstructionSysvar, ED25519_PROGRAM_ID,
};
use ghost_check::asset::{derive_config_address, AssetRequest, RepoAttributes};
use ghost_check::errors::GhostErrors;
use ghost_check::instructions::{
    DevBadge, InitConfig, RepoBadge, UpdateDevBadge, UpdateRepoBadge, VerifyDev, Vouch,
};
use ghost_check::ledger::{
    derive_dev_badge_address, derive_dev_state_address, derive_repo_badge_address, Ledger,
};
use ghost_check::program;
use ghost_check::message::{hash_dev_message, hash_repo_message};
use ghost_check::signer::{
    hash_username, pad_repo_name, sign_dev_badge_metrics, sign_repo_badge_metrics,
    signer_public_key,
};
use ghost_check::state::{DevStats, RepoStats};

const SECRET: [u8; 32] = [9u8; 32];
const AUTHORITY: [u8; 32] = [100u8; 32];
const ALICE: [u8; 32] = [1u8; 32];
const BOB: [u8; 32] = [2u8; 32];
const CAROL: [u8; 32] = [3u8; 32];
const OTHER_PROGRAM: [u8; 32] = [77u8; 32];

fn trusted_key() -> [u8; 32] {
    signer_public_key(&SECRET).try_into().unwrap()
}

fn sysvar_with(companion: Instruction) -> InstructionSysvar {
    InstructionSysvar {
        instructions: vec![
            companion,
            Instruction { program_id: OTHER_PROGRAM, data: vec![] },
        ],
        current_index: 1,
    }
}

fn companion(signature: &[u8], digest: &[u8]) -> Instruction {
    new_ed25519_instruction(
        &trusted_key(),
        &signature.try_into().unwrap(),
        &digest.try_into().unwrap(),
    )
}

/// (username, repo_count, owned, stars, commits, prs, issues, followers, age, tier)
fn dev_sysvar(username: &str, m: [u32; 8], tier: u8) -> InstructionSysvar {
    let (sig, _, digest) = sign_dev_badge_metrics(
        &SECRET, username, m[0], m[3], m[1], m[2], m[4], m[5], m[6], m[7], tier,
    );
    sysvar_with(companion(&sig, &digest))
}

fn configured() -> Ledger {
    let mut l = Ledger::new(AUTHORITY);
    InitConfig { admin: AUTHORITY }.init_config(&mut l, trusted_key()).unwrap();
    l
}

fn mint_dev(l: &mut Ledger, dev: [u8; 32], username: &str, m: [u32; 8], tier: u8) -> Result<(), GhostErrors> {
    let ctx = DevBadge {
        dev,
        instruction_sysvar: dev_sysvar(username, m, tier),
        unix_timestamp: 1_000,
        asset_issued: true,
    };
    ctx.mint_collection(
        l,
        &hash_username(username),
        m[0], m[1], m[2], m[3], m[4], m[5], m[6], m[7], tier,
    )
}

const ALICE_METRICS: [u32; 8] = [12, 5, 40, 300, 8, 3, 20, 400];

fn repo_sysvar(username: &str, repo: &str, l1: &[u8], l2: &[u8], n: [u32; 4], is_fork: u8) -> InstructionSysvar {
    let (sig, _, digest) = sign_repo_badge_metrics(
        &SECRET, username, repo, &l1.to_vec(), &l2.to_vec(), n[0], n[1], n[2], n[3], is_fork,
    );
    sysvar_with(companion(&sig, &digest))
}

fn mint_repo(l: &mut Ledger, dev: [u8; 32], username: &str, repo: &str, is_fork: u8) -> Result<(), GhostErrors> {
    let ctx = RepoBadge {
        dev,
        instruction_sysvar: repo_sysvar(username, repo, b"Rust", b"Python", [7, 42, 2, 1], is_fork),
        unix_timestamp: 2_000,
        asset_issued: true,
    };
    ctx.mint_repo_badge(
        l,
        pad_repo_name(repo.as_bytes()),
        hash_username(username),
        7, 42, 2, 1, is_fork,
        b"Rust".to_vec(),
        b"Python".to_vec(),
    )
}

#[test]
fn alice_dev_badge_scenario() {
    let mut l = configured();
    assert_eq!(
        hex::encode(hash_username("alice")),
        "2bd806c97f0e00af1a1fc3328fa763a9269723c8db8fac4f93af71db186d6e90"
    );
    let (_, _, digest) = sign_dev_badge_metrics(&SECRET, "alice", 12, 300, 5, 40, 8, 3, 20, 400, 3);
    assert_eq!(
        hex::encode(&digest),
        "01a9297b7e495b53c80ca3009e07a7f17473357471bc06cc8ebd2ed4d3f23155"
    );
    assert_eq!(mint_dev(&mut l, ALICE, "alice", ALICE_METRICS, 3), Ok(()));
    let d = l.dev_state(&ALICE).unwrap();
    assert_eq!(d.reputation_level, 3);
    assert_eq!(d.verified_repos, 0);
    assert_eq!(d.vouch_count, 0);
    assert_eq!(d.dev_addr, ALICE);
    assert_eq!(d.hashed_username, hash_username("alice"));
    assert_eq!(
        (d.repo_count, d.owned_repo_count, d.total_stars, d.total_commits),
        (12, 5, 40, 300)
    );
    assert_eq!((d.prs_merged, d.issues_closed, d.followers, d.account_age_days), (8, 3, 20, 400));
    assert_eq!(d.asset_address, derive_dev_badge_address(&ALICE));
    assert_eq!(d.last_updated, 1_000);
    assert_eq!(l.config().unwrap().dev_badges_minted, 1);
    assert_eq!(l.dev_states.slots.len(), 1);
}

#[test]
fn second_mint_fails_and_update_keeps_owner_and_asset() {
    let mut l = configured();
    mint_dev(&mut l, ALICE, "alice", ALICE_METRICS, 3).unwrap();
    assert_eq!(
        mint_dev(&mut l, ALICE, "alice", ALICE_METRICS, 3),
        Err(GhostErrors::CollectionAlreadyInitialized)
    );
    let before = l.dev_state(&ALICE).unwrap();
    let updated = [12, 5, 40, 310, 8, 3, 20, 400];
    let ctx = UpdateDevBadge {
        dev: ALICE,
        instruction_sysvar: dev_sysvar("alice", updated, 3),
        unix_timestamp: 5_000,
    };
    let r = ctx.update_dev_badge(&mut l, &hash_username("alice"), 12, 5, 40, 310, 8, 3, 20, 400, 3);
    assert_eq!(r, Ok(()));
    let after = l.dev_state(&ALICE).unwrap();
    assert_eq!(after.total_commits, 310);
    assert_eq!(after.dev_addr, before.dev_addr);
    assert_eq!(after.asset_address, before.asset_address);
    assert_eq!(after.verified_repos, before.verified_repos);
    assert_eq!(after.last_updated, 5_000);
    assert_eq!(l.config().unwrap().dev_badges_minted, 1);
}

#[test]
fn update_with_stale_signature_is_refused() {
    let mut l = configured();
    mint_dev(&mut l, ALICE, "alice", ALICE_METRICS, 3).unwrap();
    let ctx = UpdateDevBadge {
        dev: ALICE,
        instruction_sysvar: dev_sysvar("alice", ALICE_METRICS, 3),
        unix_timestamp: 5_000,
    };
    let r = ctx.update_dev_badge(&mut l, &hash_username("alice"), 12, 5, 40, 310, 8, 3, 20, 400, 3);
    assert_eq!(r, Err(GhostErrors::InvalidSignature));
    assert_eq!(l.dev_state(&ALICE).unwrap().total_commits, 300);
}

#[test]
fn update_without_credential_is_refused() {
    let mut l = configured();
    let ctx = UpdateDevBadge {
        dev: BOB,
        instruction_sysvar: dev_sysvar("bob", ALICE_METRICS, 3),
        unix_timestamp: 5_000,
    };
    let r = ctx.update_dev_badge(&mut l, &hash_username("bob"), 12, 5, 40, 300, 8, 3, 20, 400, 3);
    assert_eq!(r, Err(GhostErrors::AccountNotInitialized));
}

#[test]
fn forged_metrics_are_refused() {
    let mut l = configured();
    let ctx = DevBadge {
        dev: ALICE,
        instruction_sysvar: dev_sysvar("alice", ALICE_METRICS, 3),
        unix_timestamp: 1_000,
        asset_issued: true,
    };
    let r = ctx.mint_collection(&mut l, &hash_username("alice"), 12, 5, 40, 300, 8, 3, 20, 400, 5);
    assert_eq!(r, Err(GhostErrors::InvalidSignature));
    assert!(l.dev_state(&ALICE).is_none());
}

#[test]
fn out_of_range_tier_is_refused_at_mint() {
    let mut l = configured();
    assert_eq!(
        mint_dev(&mut l, ALICE, "alice", ALICE_METRICS, 6),
        Err(GhostErrors::ReputationLvlInvalid)
    );
}

#[test]
fn mint_before_config_is_refused() {
    let mut l = Ledger::new(AUTHORITY);
    assert_eq!(
        mint_dev(&mut l, ALICE, "alice", ALICE_METRICS, 3),
        Err(GhostErrors::ConfigNotInitialized)
    );
}

#[test]
fn failed_asset_issuance_rolls_back() {
    let mut l = configured();
    let ctx = DevBadge {
        dev: ALICE,
        instruction_sysvar: dev_sysvar("alice", ALICE_METRICS, 3),
        unix_timestamp: 1_000,
        asset_issued: false,
    };
    let r = ctx.mint_collection(&mut l, &hash_username("alice"), 12, 5, 40, 300, 8, 3, 20, 400, 3);
    assert_eq!(r, Err(GhostErrors::AssetIssuanceFailed));
    assert!(l.dev_state(&ALICE).is_none());
    assert_eq!(l.config().unwrap().dev_badges_minted, 0);
}

#[test]
fn init_config_only_once_and_only_by_authority() {
    let mut l = Ledger::new(AUTHORITY);
    assert_eq!(
        InitConfig { admin: BOB }.init_config(&mut l, trusted_key()),
        Err(GhostErrors::UpgradeAuthorityMismatch)
    );
    assert!(l.config().is_none());
    assert_eq!(InitConfig { admin: AUTHORITY }.init_config(&mut l, trusted_key()), Ok(()));
    let c = l.config().unwrap();
    assert_eq!(c.admin, AUTHORITY);
    assert_eq!(c.backend_pubkey, trusted_key());
    assert_eq!((c.dev_badges_minted, c.repo_badges_minted, c.vouches_count), (0, 0, 0));
    assert_eq!(
        InitConfig { admin: AUTHORITY }.init_config(&mut l, [0u8; 32]),
        Err(GhostErrors::AccountAlreadyInUse)
    );
}

#[test]
fn companion_checks_in_order() {
    let digest = [5u8; 32];
    let key = trusted_key();
    let good = sysvar_with(companion(&[0u8; 64], &digest));
    let mut no_prev = good.clone();
    no_prev.current_index = 0;
    assert_eq!(verify_signature(&no_prev, &key, &digest), Err(GhostErrors::InvalidSignature));
    let mut wrong_program = good.clone();
    wrong_program.instructions[0].program_id = OTHER_PROGRAM;
    assert_eq!(verify_signature(&wrong_program, &key, &digest), Err(GhostErrors::InvalidSignature));
    let mut short = good.clone();
    short.instructions[0].data.truncate(40);
    assert_eq!(verify_signature(&short, &key, &digest), Err(GhostErrors::PubkeyParseFailed));
    assert_eq!(verify_signature(&good, &[8u8; 32], &digest), Err(GhostErrors::BackendPubkeyMismatch));
    assert_eq!(verify_signature(&good, &key, &[6u8; 32]), Err(GhostErrors::InvalidSignature));
    assert_eq!(verify_signature(&good, &key, &digest), Err(GhostErrors::InvalidSignature));
    let (sig, _, d) = sign_dev_badge_metrics(&SECRET, "alice", 1, 2, 3, 4, 5, 6, 7, 8, 1);
    let signed = sysvar_with(companion(&sig, &d));
    assert_eq!(verify_signature(&signed, &key, &d.clone().try_into().unwrap()), Ok(()));
    assert_eq!(good.instructions[0].program_id, ED25519_PROGRAM_ID);
    assert_eq!(good.instructions[0].data.len(), 144);
    assert_eq!(&good.instructions[0].data[16..48], &key[..]);
}

#[test]
fn forked_repo_is_refused() {
    let mut l = configured();
    mint_dev(&mut l, ALICE, "alice", ALICE_METRICS, 3).unwrap();
    assert_eq!(mint_repo(&mut l, ALICE, "alice", "ghost-check", 1), Err(GhostErrors::ForkedRepo));
    assert!(l.repo_state(&ALICE, &pad_repo_name(b"ghost-check")).is_none());
    assert_eq!(mint_repo(&mut l, ALICE, "alice", "ghost-check", 2), Err(GhostErrors::ForkedRepo));
    assert!(l.repo_state(&ALICE, &pad_repo_name(b"ghost-check")).is_none());
    let mut empty = Ledger::new(AUTHORITY);
    assert_eq!(mint_repo(&mut empty, ALICE, "alice", "ghost-check", 1), Err(GhostErrors::ForkedRepo));
    assert_eq!(mint_repo(&mut empty, ALICE, "alice", "ghost-check", 255), Err(GhostErrors::ForkedRepo));
}

#[test]
fn update_cannot_mark_repo_as_fork() {
    let mut l = configured();
    mint_dev(&mut l, ALICE, "alice", ALICE_METRICS, 3).unwrap();
    mint_repo(&mut l, ALICE, "alice", "ghost-check", 0).unwrap();
    let name = pad_repo_name(b"ghost-check");
    let ctx = UpdateRepoBadge {
        dev: ALICE,
        instruction_sysvar: repo_sysvar("alice", "ghost-check", b"Rust", b"Python", [7, 42, 2, 1], 2),
        unix_timestamp: 3_000,
        asset_issued: true,
    };
    let r = ctx.update_repo_badge(
        &mut l, name, hash_username("alice"), 7, 42, 2, 1, 2, b"Rust".to_vec(), b"Python".to_vec(),
    );
    assert_eq!(r, Err(GhostErrors::ForkedRepo));
    assert_eq!(l.repo_state(&ALICE, &name).unwrap().is_fork, 0);
}

#[test]
fn repo_badge_lifecycle() {
    let mut l = configured();
    assert_eq!(
        mint_repo(&mut l, ALICE, "alice", "ghost-check", 0),
        Err(GhostErrors::CollectionNotInitialized)
    );
    mint_dev(&mut l, ALICE, "alice", ALICE_METRICS, 3).unwrap();
    let (_, _, digest) = sign_repo_badge_metrics(
        &SECRET, "alice", "ghost-check", &b"Rust".to_vec(), &b"Python".to_vec(), 7, 42, 2, 1, 0,
    );
    assert_eq!(
        hex::encode(&digest),
        "97ed7e84fe2ea339c2bc8060f7c7736c229966d9568fa58841cc21f51f319dec"
    );
    assert_eq!(mint_repo(&mut l, ALICE, "alice", "ghost-check", 0), Ok(()));
    let name = pad_repo_name(b"ghost-check");
    let r = l.repo_state(&ALICE, &name).unwrap().clone();
    assert_eq!(r.owner, ALICE);
    assert_eq!(r.dev_state, derive_dev_state_address(&ALICE));
    assert_eq!((r.stars, r.commits, r.forks, r.open_issues, r.is_fork), (7, 42, 2, 1, 0));
    assert_eq!(r.lang1, b"Rust".to_vec());
    assert_eq!(r.lang2, b"Python".to_vec());
    assert_eq!(l.dev_state(&ALICE).unwrap().verified_repos, 1);
    assert_eq!(l.config().unwrap().repo_badges_minted, 1);
    assert_eq!(
        mint_repo(&mut l, ALICE, "alice", "ghost-check", 0),
        Err(GhostErrors::AccountAlreadyInUse)
    );

    let ctx = UpdateRepoBadge {
        dev: ALICE,
        instruction_sysvar: repo_sysvar("alice", "ghost-check", b"Rust", b"Go", [9, 50, 3, 0], 0),
        unix_timestamp: 3_000,
        asset_issued: true,
    };
    let res = ctx.update_repo_badge(
        &mut l, name, hash_username("alice"), 9, 50, 3, 0, 0, b"Rust".to_vec(), b"Go".to_vec(),
    );
    assert_eq!(res, Ok(()));
    let r2 = l.repo_state(&ALICE, &name).unwrap();
    assert_eq!((r2.stars, r2.commits, r2.forks, r2.open_issues), (9, 50, 3, 0));
    assert_eq!(r2.lang2, b"Go".to_vec());
    assert_eq!(r2.owner, ALICE);
    assert_eq!(r2.last_updated, 3_000);
    assert_eq!(l.dev_state(&ALICE).unwrap().verified_repos, 1);

    let missing = UpdateRepoBadge {
        dev: ALICE,
        instruction_sysvar: repo_sysvar("alice", "other", b"Rust", b"Go", [9, 50, 3, 0], 0),
        unix_timestamp: 3_000,
        asset_issued: true,
    };
    let res = missing.update_repo_badge(
        &mut l,
        pad_repo_name(b"other"),
        hash_username("alice"),
        9, 50, 3, 0, 0,
        b"Rust".to_vec(),
        b"Go".to_vec(),
    );
    assert_eq!(res, Err(GhostErrors::AccountNotInitialized));
}

#[test]
fn long_language_field_is_refused() {
    let mut l = configured();
    mint_dev(&mut l, ALICE, "alice", ALICE_METRICS, 3).unwrap();
    let ctx = RepoBadge {
        dev: ALICE,
        instruction_sysvar: repo_sysvar("alice", "nb", b"Jupyter Notebook", b"", [1, 1, 1, 1], 0),
        unix_timestamp: 2_000,
        asset_issued: true,
    };
    let res = ctx.mint_repo_badge(
        &mut l,
        pad_repo_name(b"nb"),
        hash_username("alice"),
        1, 1, 1, 1, 0,
        b"Jupyter Notebook".to_vec(),
        vec![],
    );
    assert_eq!(res, Err(GhostErrors::LanguageTooLong));
}

#[test]
fn verify_dev_gate() {
    let mut l = configured();
    mint_dev(&mut l, ALICE, "alice", ALICE_METRICS, 3).unwrap();
    let v = VerifyDev { verifier: CAROL };
    assert_eq!(v.verify_dev(&l, ALICE, 0), Err(GhostErrors::ReputationLvlInvalid));
    assert_eq!(v.verify_dev(&l, ALICE, 6), Err(GhostErrors::ReputationLvlInvalid));
    assert_eq!(v.verify_dev(&l, BOB, 9), Err(GhostErrors::ReputationLvlInvalid));
    assert_eq!(v.verify_dev(&l, BOB, 1), Err(GhostErrors::AccountNotInitialized));
    assert_eq!(v.verify_dev(&l, ALICE, 3), Ok(()));
    assert_eq!(v.verify_dev(&l, ALICE, 1), Ok(()));
    assert_eq!(v.verify_dev(&l, ALICE, 4), Err(GhostErrors::DevVerificationFailed));
}

#[test]
fn vouch_rules() {
    let mut l = configured();
    mint_dev(&mut l, ALICE, "alice", ALICE_METRICS, 3).unwrap();
    mint_dev(&mut l, BOB, "bob", [1, 1, 0, 2, 0, 0, 0, 10], 1).unwrap();
    let alice = Vouch { voucher: ALICE, unix_timestamp: 7_000 };
    let bob = Vouch { voucher: BOB, unix_timestamp: 7_000 };
    let carol = Vouch { voucher: CAROL, unix_timestamp: 7_000 };
    assert_eq!(bob.vouch_for_dev(&mut l, ALICE), Err(GhostErrors::LvlNotReached));
    assert_eq!(alice.vouch_for_dev(&mut l, ALICE), Err(GhostErrors::SelfVouchDenied));
    assert_eq!(carol.vouch_for_dev(&mut l, ALICE), Err(GhostErrors::AccountNotInitialized));
    assert_eq!(alice.vouch_for_dev(&mut l, CAROL), Err(GhostErrors::AccountNotInitialized));
    assert_eq!(alice.vouch_for_dev(&mut l, BOB), Ok(()));
    let rec = l.vouch_record(&ALICE, &BOB).unwrap();
    assert_eq!((rec.voucher, rec.target, rec.voucher_level, rec.timestamp), (ALICE, BOB, 3, 7_000));
    assert_eq!(l.dev_state(&BOB).unwrap().vouch_count, 1);
    assert_eq!(l.dev_state(&ALICE).unwrap().reputation_level, 3);
    assert_eq!(l.config().unwrap().vouches_count, 1);
    assert_eq!(alice.vouch_for_dev(&mut l, BOB), Err(GhostErrors::AccountAlreadyInUse));
    assert_eq!(l.dev_state(&BOB).unwrap().vouch_count, 1);
}

#[test]
fn stored_credential_rehashes_to_signed_digest() {
    let mut l = configured();
    mint_dev(&mut l, ALICE, "alice", ALICE_METRICS, 3).unwrap();
    let d = l.dev_state(&ALICE).unwrap();
    let stats = DevStats {
        hashed_username: d.hashed_username,
        repo_count: d.repo_count,
        owned_repo_count: d.owned_repo_count,
        total_stars: d.total_stars,
        total_commits: d.total_commits,
        prs_merged: d.prs_merged,
        issues_closed: d.issues_closed,
        followers: d.followers,
        account_age_days: d.account_age_days,
        reputation_level: d.reputation_level,
    };
    let digest = hash_dev_message(&stats);
    let (sig, _, signed) = sign_dev_badge_metrics(&SECRET, "alice", 12, 300, 5, 40, 8, 3, 20, 400, 3);
    assert_eq!(signed, digest.to_vec());
    let sysvar = sysvar_with(companion(&sig, &digest));
    assert_eq!(verify_signature(&sysvar, &trusted_key(), &digest), Ok(()));

    mint_repo(&mut l, ALICE, "alice", "ghost-check", 0).unwrap();
    let r = l.repo_state(&ALICE, &pad_repo_name(b"ghost-check")).unwrap().clone();
    let rstats = RepoStats {
        repo_name_padded: r.repo_name,
        hashed_username: r.hashed_username,
        stars: r.stars,
        commits: r.commits,
        forks: r.forks,
        open_issues: r.open_issues,
        is_fork: r.is_fork,
        lang1: r.lang1.clone(),
        lang2: r.lang2.clone(),
    };
    let rdigest = hash_repo_message(&rstats);
    let (rsig, _, rsigned) = sign_repo_badge_metrics(
        &SECRET, "alice", "ghost-check", &b"Rust".to_vec(), &b"Python".to_vec(), 7, 42, 2, 1, 0,
    );
    assert_eq!(rsigned, rdigest.to_vec());
    let rsysvar = sysvar_with(companion(&rsig, &rdigest));
    assert_eq!(verify_signature(&rsysvar, &trusted_key(), &rdigest), Ok(()));
}

#[test]
fn asset_requests_name_the_right_assets() {
    let mut l = configured();
    let ctx = DevBadge {
        dev: ALICE,
        instruction_sysvar: dev_sysvar("alice", ALICE_METRICS, 3),
        unix_timestamp: 1_000,
        asset_issued: true,
    };
    let req = ctx.collection_request(&l, &hash_username("alice"), 12, 5, 40, 300, 8, 3, 20, 400, 3);
    assert_eq!(
        req,
        Ok(AssetRequest::CreateCollection {
            collection: derive_dev_badge_address(&ALICE),
            authority: derive_config_address(),
            payer: ALICE,
            permanently_frozen: true,
            dev: ALICE,
        })
    );
    let bad = ctx.collection_request(&l, &hash_username("alice"), 12, 5, 40, 301, 8, 3, 20, 400, 3);
    assert_eq!(bad, Err(GhostErrors::InvalidSignature));
    mint_dev(&mut l, ALICE, "alice", ALICE_METRICS, 3).unwrap();
    assert_eq!(
        ctx.collection_request(&l, &hash_username("alice"), 12, 5, 40, 300, 8, 3, 20, 400, 3),
        Err(GhostErrors::CollectionAlreadyInitialized)
    );

    let name = pad_repo_name(b"ghost-check");
    let rctx = RepoBadge {
        dev: ALICE,
        instruction_sysvar: repo_sysvar("alice", "ghost-check", b"Rust", b"Python", [7, 42, 2, 1], 0),
        unix_timestamp: 2_000,
        asset_issued: true,
    };
    let attributes = RepoAttributes { repo_name: name, stars: 7, commits: 42, forks: 2 };
    let asset = derive_repo_badge_address(&derive_dev_state_address(&ALICE), &name);
    let rreq = rctx.repo_badge_request(
        &l, name, hash_username("alice"), 7, 42, 2, 1, 0, &b"Rust".to_vec(), &b"Python".to_vec(),
    );
    assert_eq!(
        rreq,
        Ok(AssetRequest::CreateAsset {
            asset,
            collection: derive_dev_badge_address(&ALICE),
            authority: derive_config_address(),
            payer: ALICE,
            permanently_frozen: true,
            attributes,
        })
    );
    mint_repo(&mut l, ALICE, "alice", "ghost-check", 0).unwrap();
    let uctx = UpdateRepoBadge {
        dev: ALICE,
        instruction_sysvar: repo_sysvar("alice", "ghost-check", b"Rust", b"Python", [8, 42, 2, 1], 0),
        unix_timestamp: 3_000,
        asset_issued: true,
    };
    let ureq = uctx.repo_update_request(
        &l, name, hash_username("alice"), 8, 42, 2, 1, 0, &b"Rust".to_vec(), &b"Python".to_vec(),
    );
    assert_eq!(
        ureq,
        Ok(AssetRequest::UpdateAttributes {
            asset,
            collection: derive_dev_badge_address(&ALICE),
            authority: derive_config_address(),
            payer: ALICE,
            attributes: RepoAttributes { stars: 8, ..attributes },
        })
    );
}

#[test]
fn program_entry_points() {
    let mut l = Ledger::new(AUTHORITY);
    program::init_config(&InitConfig { admin: AUTHORITY }, &mut l, trusted_key()).unwrap();
    let ctx = DevBadge {
        dev: ALICE,
        instruction_sysvar: dev_sysvar("alice", ALICE_METRICS, 3),
        unix_timestamp: 1_000,
        asset_issued: true,
    };
    let r = program::mint_dev_badge(&ctx, &mut l, hash_username("alice"), 12, 5, 40, 300, 8, 3, 20, 400, 3);
    assert_eq!(r, Ok(()));
    let u = UpdateDevBadge {
        dev: ALICE,
        instruction_sysvar: dev_sysvar("alice", ALICE_METRICS, 3),
        unix_timestamp: 1_500,
    };
    let r = program::update_dev_badge(&u, &mut l, hash_username("alice"), 12, 5, 40, 300, 8, 3, 20, 400, 3);
    assert_eq!(r, Ok(()));
    let rctx = RepoBadge {
        dev: ALICE,
        instruction_sysvar: repo_sysvar("alice", "r", b"C", b"", [1, 2, 3, 4], 0),
        unix_timestamp: 2_000,
        asset_issued: true,
    };
    let name = pad_repo_name(b"r");
    let r = program::mint_repo_badge(&rctx, &mut l, name, hash_username("alice"), 1, 2, 3, 4, 0, b"C".to_vec(), vec![]);
    assert_eq!(r, Ok(()));
    let uctx = UpdateRepoBadge {
        dev: ALICE,
        instruction_sysvar: repo_sysvar("alice", "r", b"C", b"", [1, 2, 3, 4], 1),
        unix_timestamp: 2_500,
        asset_issued: true,
    };
    let r = program::update_repo_badge(&uctx, &mut l, name, hash_username("alice"), 1, 2, 3, 4, 1, b"C".to_vec(), vec![]);
    assert_eq!(r, Err(GhostErrors::ForkedRepo));
    assert_eq!(program::verify_dev(&VerifyDev { verifier: BOB }, &l, ALICE, 2), Ok(()));
    let v = Vouch { voucher: ALICE, unix_timestamp: 9 };
    assert_eq!(program::vouch_for_dev(&v, &mut l, BOB), Err(GhostErrors::AccountNotInitialized));
}

#[test]
fn repo_update_by_other_dev_is_refused() {
    let mut l = configured();
    mint_dev(&mut l, ALICE, "alice", ALICE_METRICS, 3).unwrap();
    mint_dev(&mut l, BOB, "bob", ALICE_METRICS, 3).unwrap();
    mint_repo(&mut l, ALICE, "alice", "ghost-check", 0).unwrap();
    let ctx = UpdateRepoBadge {
        dev: BOB,
        instruction_sysvar: repo_sysvar("bob", "ghost-check", b"Rust", b"Python", [7, 42, 2, 1], 0),
        unix_timestamp: 3_000,
        asset_issued: true,
    };
    let r = ctx.update_repo_badge(
        &mut l, pad_repo_name(b"ghost-check"), hash_username("bob"), 7, 42, 2, 1, 0,
        b"Rust".to_vec(), b"Python".to_vec(),
    );
    assert_eq!(r, Err(GhostErrors::AccountNotInitialized));
}
