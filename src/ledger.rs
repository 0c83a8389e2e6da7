//! The ledger: the configuration and the credential and vouch records, each
//! stored at an address derived from a fixed tag and the identities involved.
use crate::crypto::{sha256, sha256_of};
use crate::message::append_bytes;
use crate::state::{DevState, GhostConfig, Pubkey, RepoState, VouchRecord, valid_tier};
use crate::table::Table;
use vstd::prelude::*;
use vstd::string::StringSliceAdditionalSpecFns;

verus! {

/// The largest length of a language field of a repo credential.
pub const MAX_LANG_LEN: usize = 10;

/// The address of the dev credential of `dev`.
pub open spec fn dev_state_address(dev: Pubkey) -> Pubkey {
    sha256_of("dev_state".spec_bytes() + dev@)
}

/// The address of the badge asset of `dev`.
pub open spec fn dev_badge_address(dev: Pubkey) -> Pubkey {
    sha256_of("dev_badge".spec_bytes() + dev@)
}

/// The address of the repo credential for `repo_name` under a dev credential.
pub open spec fn repo_state_address(dev_state: Pubkey, repo_name: [u8; 32]) -> Pubkey {
    sha256_of("repo_state".spec_bytes() + dev_state@ + repo_name@)
}

/// The address of the badge asset for `repo_name` under a dev credential.
pub open spec fn repo_badge_address(dev_state: Pubkey, repo_name: [u8; 32]) -> Pubkey {
    sha256_of("repo_badge".spec_bytes() + dev_state@ + repo_name@)
}

/// The address of the record of `voucher` vouching for `target`.
pub open spec fn vouch_record_address(voucher: Pubkey, target: Pubkey) -> Pubkey {
    sha256_of("vouch_record".spec_bytes() + voucher@ + target@)
}

fn address_of_one(tag: &str, first: &Pubkey) -> (r: Pubkey)
    ensures
        r == sha256_of(tag.spec_bytes() + first@),
{
    let mut seeds: Vec<u8> = Vec::new();
    append_bytes(&mut seeds, tag.as_bytes());
    append_bytes(&mut seeds, first);
    sha256(seeds.as_slice())
}

fn address_of_two(tag: &str, first: &Pubkey, second: &[u8; 32]) -> (r: Pubkey)
    ensures
        r == sha256_of(tag.spec_bytes() + first@ + second@),
{
    let mut seeds: Vec<u8> = Vec::new();
    append_bytes(&mut seeds, tag.as_bytes());
    append_bytes(&mut seeds, first);
    append_bytes(&mut seeds, second);
    sha256(seeds.as_slice())
}

/// The address of the dev credential of `dev`.
pub fn derive_dev_state_address(dev: &Pubkey) -> (r: Pubkey)
    ensures
        r == dev_state_address(*dev),
{
    address_of_one("dev_state", dev)
}

/// The address of the badge asset of `dev`.
pub fn derive_dev_badge_address(dev: &Pubkey) -> (r: Pubkey)
    ensures
        r == dev_badge_address(*dev),
{
    address_of_one("dev_badge", dev)
}

/// The address of the repo credential for `repo_name` under a dev credential.
pub fn derive_repo_state_address(dev_state: &Pubkey, repo_name: &[u8; 32]) -> (r: Pubkey)
    ensures
        r == repo_state_address(*dev_state, *repo_name),
{
    address_of_two("repo_state", dev_state, repo_name)
}

/// The address of the badge asset for `repo_name` under a dev credential.
pub fn derive_repo_badge_address(dev_state: &Pubkey, repo_name: &[u8; 32]) -> (r: Pubkey)
    ensures
        r == repo_badge_address(*dev_state, *repo_name),
{
    address_of_two("repo_badge", dev_state, repo_name)
}

/// The address of the record of `voucher` vouching for `target`.
pub fn derive_vouch_record_address(voucher: &Pubkey, target: &Pubkey) -> (r: Pubkey)
    ensures
        r == vouch_record_address(*voucher, *target),
{
    address_of_two("vouch_record", voucher, target)
}

/// What the ledger holds, as maps from address to record.
pub struct LedgerView {
    pub upgrade_authority: Pubkey,
    pub config: Option<GhostConfig>,
    pub devs: Map<Pubkey, DevState>,
    pub repos: Map<Pubkey, RepoState>,
    pub vouches: Map<Pubkey, VouchRecord>,
}

impl LedgerView {
    /// Every record sits at the address its own identities derive; tiers are
    /// one to five; no repo credential is a fork (its flag is zero), each has short language
    /// fields and a parent dev credential of the same owner; nobody vouched
    /// for themselves.
    pub open spec fn consistent(self) -> bool {
        &&& forall|a: Pubkey| #[trigger]
            self.devs.contains_key(a) ==> a == dev_state_address(self.devs[a].dev_addr)
                && valid_tier(self.devs[a].reputation_level)
        &&& forall|a: Pubkey| #[trigger]
            self.repos.contains_key(a) ==> repo_consistent(self.devs, a, self.repos[a])
        &&& forall|a: Pubkey| #[trigger]
            self.vouches.contains_key(a) ==> a == vouch_record_address(
                self.vouches[a].voucher,
                self.vouches[a].target,
            ) && self.vouches[a].voucher != self.vouches[a].target
    }
}

/// A repo credential stored at `a`, seen against the dev credentials.
pub open spec fn repo_consistent(devs: Map<Pubkey, DevState>, a: Pubkey, r: RepoState) -> bool {
    &&& a == repo_state_address(r.dev_state, r.repo_name)
    &&& r.is_fork == 0
    &&& r.lang1@.len() <= MAX_LANG_LEN
    &&& r.lang2@.len() <= MAX_LANG_LEN
    &&& devs.contains_key(r.dev_state)
    &&& devs[r.dev_state].dev_addr == r.owner
}

/// The configuration and every record, with the identity allowed to set the
/// configuration up.
pub struct Ledger {
    pub upgrade_authority: Pubkey,
    pub config: Option<GhostConfig>,
    pub dev_states: Table<DevState>,
    pub repo_states: Table<RepoState>,
    pub vouch_records: Table<VouchRecord>,
}

impl View for Ledger {
    type V = LedgerView;

    open spec fn view(&self) -> LedgerView {
        LedgerView {
            upgrade_authority: self.upgrade_authority,
            config: self.config,
            devs: self.dev_states@,
            repos: self.repo_states@,
            vouches: self.vouch_records@,
        }
    }
}

impl Ledger {
    /// The tables hold each address once, and the records are consistent.
    pub open spec fn wf(&self) -> bool {
        &&& self.dev_states.wf()
        &&& self.repo_states.wf()
        &&& self.vouch_records.wf()
        &&& self@.consistent()
    }

    /// An empty ledger whose configuration only `upgrade_authority` may set up.
    pub fn new(upgrade_authority: Pubkey) -> (r: Self)
        ensures
            r.wf(),
            r@.upgrade_authority == upgrade_authority,
            r@.config is None,
            r@.devs.is_empty(),
            r@.repos.is_empty(),
            r@.vouches.is_empty(),
    {
        Ledger {
            upgrade_authority,
            config: None,
            dev_states: Table::new(),
            repo_states: Table::new(),
            vouch_records: Table::new(),
        }
    }

    /// The configuration, once set up.
    pub fn config(&self) -> (r: Option<GhostConfig>)
        ensures
            r == self@.config,
    {
        self.config
    }

    /// The dev credential of `dev`, if it has one.
    pub fn dev_state(&self, dev: &Pubkey) -> (r: Option<DevState>)
        requires
            self.wf(),
        ensures
            r == (if self@.devs.contains_key(dev_state_address(*dev)) {
                Some(self@.devs[dev_state_address(*dev)])
            } else {
                None::<DevState>
            }),
    {
        let addr = derive_dev_state_address(dev);
        match self.dev_states.find(&addr) {
            Some(i) => Some(*self.dev_states.get(i)),
            None => None,
        }
    }

    /// The repo credential of `dev` for `repo_name`, if there is one.
    pub fn repo_state(&self, dev: &Pubkey, repo_name: &[u8; 32]) -> (r: Option<&RepoState>)
        requires
            self.wf(),
        ensures
            r == (if self@.repos.contains_key(
                repo_state_address(dev_state_address(*dev), *repo_name),
            ) {
                Some(&self@.repos[repo_state_address(dev_state_address(*dev), *repo_name)])
            } else {
                None::<&RepoState>
            }),
    {
        let dev_addr = derive_dev_state_address(dev);
        let addr = derive_repo_state_address(&dev_addr, repo_name);
        match self.repo_states.find(&addr) {
            Some(i) => Some(self.repo_states.get(i)),
            None => None,
        }
    }

    /// The record of `voucher` vouching for `target`, if there is one.
    pub fn vouch_record(&self, voucher: &Pubkey, target: &Pubkey) -> (r: Option<VouchRecord>)
        requires
            self.wf(),
        ensures
            r == (if self@.vouches.contains_key(vouch_record_address(*voucher, *target)) {
                Some(self@.vouches[vouch_record_address(*voucher, *target)])
            } else {
                None::<VouchRecord>
            }),
    {
        let addr = derive_vouch_record_address(voucher, target);
        match self.vouch_records.find(&addr) {
            Some(i) => Some(*self.vouch_records.get(i)),
            None => None,
        }
    }
}

} // verus!
