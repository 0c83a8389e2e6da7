//! What the ledger asks of the asset-issuance service: the badge assets that
//! stand for credentials. Every badge is created permanently frozen (it
//! cannot be transferred) and the configuration is its update authority.
use crate::crypto::{sha256, sha256_of};
use crate::state::Pubkey;
use vstd::prelude::*;
use vstd::string::StringSliceAdditionalSpecFns;

verus! {

/// The name of a dev badge collection.
pub const DEV_BADGE_NAME: &'static str = "Dev_Badge";

/// The metadata location of a dev badge collection.
pub const DEV_BADGE_URI: &'static str = "https://GhostCheck/metadata/dev";

/// The name of a repo badge.
pub const REPO_BADGE_NAME: &'static str = "AMM-Repo";

/// The metadata location of a repo badge.
pub const REPO_BADGE_URI: &'static str = "https://ghostcheck/metadata/repo-image/dev";

/// The descriptive attributes of a repo badge.
#[derive(Clone, Copy, Debug, PartialEq, Eq)]
pub struct RepoAttributes {
    pub repo_name: [u8; 32],
    pub stars: u32,
    pub commits: u32,
    pub forks: u32,
}

/// A call to the asset-issuance service, made with the configuration's
/// authority and paid for by `payer`. `permanently_frozen` asks for a
/// freeze that no one can lift, so the badge cannot be transferred; the
/// configuration holds the freeze and the update rights.
#[derive(Clone, Copy, Debug, PartialEq, Eq)]
pub enum AssetRequest {
    /// Create the collection asset of a dev credential, tagged with the
    /// developer's identity.
    CreateCollection {
        collection: Pubkey,
        authority: Pubkey,
        payer: Pubkey,
        permanently_frozen: bool,
        dev: Pubkey,
    },
    /// Create the asset of a repo credential inside the developer's collection.
    CreateAsset {
        asset: Pubkey,
        collection: Pubkey,
        authority: Pubkey,
        payer: Pubkey,
        permanently_frozen: bool,
        attributes: RepoAttributes,
    },
    /// Replace the attributes of a repo credential's asset.
    UpdateAttributes {
        asset: Pubkey,
        collection: Pubkey,
        authority: Pubkey,
        payer: Pubkey,
        attributes: RepoAttributes,
    },
}

/// The address of the configuration, the authority over every badge.
pub open spec fn config_address() -> Pubkey {
    sha256_of("ghost_config".spec_bytes())
}

/// The address of the configuration.
pub fn derive_config_address() -> (r: Pubkey)
    ensures
        r == config_address(),
{
    sha256("ghost_config".as_bytes())
}

} // verus!
