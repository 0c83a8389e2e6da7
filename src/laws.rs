//! Properties that hold of the ledger's operations for all inputs, proved
//! from their steps.
use crate::auth::{
    ED25519_PROGRAM_ID, InstructionSysvar, MESSAGE_OFFSET, SIGNATURE_OFFSET, check_header,
    companion_check,
};
use crate::crypto::ed25519_accepts;
use crate::errors::GhostErrors;
use crate::instructions::{
    DevBadge, RepoBadge, UpdateDevBadge, UpdateRepoBadge, Vouch, issued_dev_state, mint_dev_step,
    mint_repo_step, update_dev_step, update_repo_step, verify_dev_outcome, vouch_step,
    MIN_VOUCHER_LEVEL,
};
use crate::ledger::{LedgerView, dev_state_address, repo_state_address};
use crate::message::{dev_message_hash, repo_message_hash};
use crate::state::{DevStats, Pubkey, RepoStats, dev_stats_of, repo_stats_of, valid_tier};
use vstd::prelude::*;

verus! {

/// The signature bytes that the companion instruction of the current one carries.
pub open spec fn companion_signature(sysvar: InstructionSysvar) -> Seq<u8> {
    sysvar.instructions@[sysvar.current_index - 1].data@.subrange(
        SIGNATURE_OFFSET as int,
        MESSAGE_OFFSET as int,
    )
}

/// A dev credential is issued once per identity: the first issuance stores
/// exactly the signed metrics, with zero counters, and any later issuance for
/// the same identity is refused as already existing.
pub proof fn lemma_dev_credential_issued_once(
    l: LedgerView,
    ctx: DevBadge,
    s: DevStats,
    again: DevBadge,
    s_again: DevStats,
)
    requires
        mint_dev_step(l, ctx, s) is Ok,
        again.dev == ctx.dev,
    ensures
        ({
            let next = mint_dev_step(l, ctx, s)->Ok_0;
            let rec = next.devs[dev_state_address(ctx.dev)];
            &&& next.devs.contains_key(dev_state_address(ctx.dev))
            &&& rec == issued_dev_state(ctx.dev, s, ctx.unix_timestamp)
            &&& dev_stats_of(rec) == s
            &&& rec.dev_addr == ctx.dev
            &&& rec.verified_repos == 0
            &&& rec.vouch_count == 0
            &&& mint_dev_step(next, again, s_again) == Err::<LedgerView, GhostErrors>(
                GhostErrors::CollectionAlreadyInitialized,
            )
        }),
{
}

/// A forked repository (any non-zero flag) is refused, with the fork condition, whatever the
/// ledger and the rest of the payload; so no repo credential is created.
pub proof fn lemma_fork_refused(l: LedgerView, ctx: RepoBadge, s: RepoStats)
    requires
        s.is_fork != 0,
    ensures
        mint_repo_step(l, ctx, s) == Err::<LedgerView, GhostErrors>(GhostErrors::ForkedRepo),
{
}

/// A minimum tier outside one to five is refused with the tier-range
/// condition, whatever the target's state.
pub proof fn lemma_tier_range_refused(l: LedgerView, dev_addr: Pubkey, min_lvl: u8)
    requires
        !valid_tier(min_lvl),
    ensures
        verify_dev_outcome(l, dev_addr, min_lvl) == Err::<(), GhostErrors>(
            GhostErrors::ReputationLvlInvalid,
        ),
{
}

/// A voucher below tier two cannot vouch.
pub proof fn lemma_low_tier_cannot_vouch(l: LedgerView, ctx: Vouch, target: Pubkey)
    requires
        l.devs.contains_key(dev_state_address(ctx.voucher)),
        l.devs[dev_state_address(ctx.voucher)].reputation_level < MIN_VOUCHER_LEVEL,
    ensures
        vouch_step(l, ctx, target) is Err,
{
}

/// Nobody can vouch for themselves.
pub proof fn lemma_no_self_vouch(l: LedgerView, ctx: Vouch)
    ensures
        vouch_step(l, ctx, ctx.voucher) is Err,
{
}

/// The same voucher cannot vouch for the same target twice: once the first
/// vouch went through, the second is refused as already existing.
pub proof fn lemma_vouch_once_per_pair(l: LedgerView, ctx: Vouch, target: Pubkey, again: Vouch)
    requires
        vouch_step(l, ctx, target) is Ok,
        again.voucher == ctx.voucher,
    ensures
        vouch_step(vouch_step(l, ctx, target)->Ok_0, again, target) == Err::<
            LedgerView,
            GhostErrors,
        >(GhostErrors::AccountAlreadyInUse),
{
}

/// After a dev credential is issued, the digest recomputed from the stored
/// record is the one the companion instruction's signature was checked on,
/// and that signature is valid under the trusted key.
pub proof fn lemma_issued_dev_credential_signed(l: LedgerView, ctx: DevBadge, s: DevStats)
    requires
        mint_dev_step(l, ctx, s) is Ok,
    ensures
        ({
            let next = mint_dev_step(l, ctx, s)->Ok_0;
            let trusted = next.config->0.backend_pubkey;
            let h = dev_message_hash(dev_stats_of(next.devs[dev_state_address(ctx.dev)]));
            &&& companion_check(ctx.instruction_sysvar, trusted, h) == Ok::<(), GhostErrors>(())
            &&& ed25519_accepts(trusted, h@, companion_signature(ctx.instruction_sysvar))
        }),
{
}

/// After a dev credential is updated, the digest recomputed from the stored
/// record is the one the authorizing signature was checked on.
pub proof fn lemma_updated_dev_credential_signed(l: LedgerView, ctx: UpdateDevBadge, s: DevStats)
    requires
        update_dev_step(l, ctx, s) is Ok,
    ensures
        ({
            let next = update_dev_step(l, ctx, s)->Ok_0;
            let trusted = next.config->0.backend_pubkey;
            let h = dev_message_hash(dev_stats_of(next.devs[dev_state_address(ctx.dev)]));
            &&& companion_check(ctx.instruction_sysvar, trusted, h) == Ok::<(), GhostErrors>(())
            &&& ed25519_accepts(trusted, h@, companion_signature(ctx.instruction_sysvar))
        }),
{
}

/// After a repo credential is issued, the digest recomputed from the stored
/// record is the one the authorizing signature was checked on.
pub proof fn lemma_issued_repo_credential_signed(l: LedgerView, ctx: RepoBadge, s: RepoStats)
    requires
        mint_repo_step(l, ctx, s) is Ok,
    ensures
        ({
            let next = mint_repo_step(l, ctx, s)->Ok_0;
            let trusted = next.config->0.backend_pubkey;
            let a = repo_state_address(dev_state_address(ctx.dev), s.repo_name_padded);
            let h = repo_message_hash(repo_stats_of(next.repos[a]));
            &&& companion_check(ctx.instruction_sysvar, trusted, h) == Ok::<(), GhostErrors>(())
            &&& ed25519_accepts(trusted, h@, companion_signature(ctx.instruction_sysvar))
        }),
{
}

/// After a repo credential is updated, the digest recomputed from the stored
/// record is the one the authorizing signature was checked on.
pub proof fn lemma_updated_repo_credential_signed(l: LedgerView, ctx: UpdateRepoBadge, s: RepoStats)
    requires
        update_repo_step(l, ctx, s) is Ok,
    ensures
        ({
            let next = update_repo_step(l, ctx, s)->Ok_0;
            let trusted = next.config->0.backend_pubkey;
            let a = repo_state_address(dev_state_address(ctx.dev), s.repo_name_padded);
            let h = repo_message_hash(repo_stats_of(next.repos[a]));
            &&& companion_check(ctx.instruction_sysvar, trusted, h) == Ok::<(), GhostErrors>(())
            &&& ed25519_accepts(trusted, h@, companion_signature(ctx.instruction_sysvar))
        }),
{
}

/// The signature-check instruction that `new_ed25519_instruction` lays out is
/// read back by the companion check as it was written: placed right before
/// the current instruction, carrying the trusted key, a digest and a valid
/// signature of that digest under the key, it passes.
pub proof fn lemma_companion_layout_accepted(
    sysvar: InstructionSysvar,
    trusted: Pubkey,
    signature: [u8; 64],
    digest: [u8; 32],
)
    requires
        1 <= sysvar.current_index < sysvar.instructions@.len(),
        sysvar.instructions@[sysvar.current_index - 1].program_id == ED25519_PROGRAM_ID,
        sysvar.instructions@[sysvar.current_index - 1].data@ == check_header() + trusted@
            + signature@ + digest@,
        ed25519_accepts(trusted, digest@, signature@),
    ensures
        companion_check(sysvar, trusted, digest) == Ok::<(), GhostErrors>(()),
        companion_signature(sysvar) == signature@,
{
    let data = sysvar.instructions@[sysvar.current_index - 1].data@;
    assert(data.len() == 144);
    assert(data.subrange(16, 48) =~= trusted@);
    assert(data.subrange(48, 112) =~= signature@);
    assert(data.subrange(112, 144) =~= digest@);
}

/// Metrics signed with the trusted key and carried by a companion instruction
/// laid out as `new_ed25519_instruction` does are issued as a credential for
/// a fresh identity with a valid tier: exactly one record, holding the signed
/// metrics, with zero counters.
pub proof fn lemma_signed_dev_payload_issued(
    l: LedgerView,
    ctx: DevBadge,
    s: DevStats,
    signature: [u8; 64],
)
    requires
        l.config is Some,
        !l.devs.contains_key(dev_state_address(ctx.dev)),
        valid_tier(s.reputation_level),
        l.config->0.dev_badges_minted < u64::MAX,
        ctx.asset_issued,
        1 <= ctx.instruction_sysvar.current_index < ctx.instruction_sysvar.instructions@.len(),
        ctx.instruction_sysvar.instructions@[ctx.instruction_sysvar.current_index
            - 1].program_id == ED25519_PROGRAM_ID,
        ctx.instruction_sysvar.instructions@[ctx.instruction_sysvar.current_index - 1].data@
            == check_header() + l.config->0.backend_pubkey@ + signature@ + dev_message_hash(s)@,
        ed25519_accepts(l.config->0.backend_pubkey, dev_message_hash(s)@, signature@),
    ensures
        mint_dev_step(l, ctx, s) is Ok,
        mint_dev_step(l, ctx, s)->Ok_0.devs == l.devs.insert(
            dev_state_address(ctx.dev),
            issued_dev_state(ctx.dev, s, ctx.unix_timestamp),
        ),
        mint_dev_step(l, ctx, s)->Ok_0.config->0.dev_badges_minted == l.config->0.dev_badges_minted
            + 1,
{
    lemma_companion_layout_accepted(
        ctx.instruction_sysvar,
        l.config->0.backend_pubkey,
        signature,
        dev_message_hash(s),
    );
}

/// The first issuance for an identity stores exactly the signed input: on a
/// set-up ledger with no credential for the identity, a tier of one to five,
/// room in the issuance counter, a companion instruction that checks out and
/// the badge asset created, the new record holds every signed field as given,
/// belongs to the signer and starts with zero counters.
pub proof fn lemma_first_issuance_stores_signed_input(l: LedgerView, ctx: DevBadge, s: DevStats)
    requires
        l.config is Some,
        !l.devs.contains_key(dev_state_address(ctx.dev)),
        valid_tier(s.reputation_level),
        l.config->0.dev_badges_minted < u64::MAX,
        companion_check(ctx.instruction_sysvar, l.config->0.backend_pubkey, dev_message_hash(s))
            is Ok,
        ctx.asset_issued,
    ensures
        mint_dev_step(l, ctx, s) is Ok,
        ({
            let rec = mint_dev_step(l, ctx, s)->Ok_0.devs[dev_state_address(ctx.dev)];
            &&& dev_stats_of(rec) == s
            &&& rec.dev_addr == ctx.dev
            &&& rec.verified_repos == 0
            &&& rec.vouch_count == 0
        }),
{
}

} // verus!
