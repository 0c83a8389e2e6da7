//! The named conditions on which a ledger operation is refused.
use vstd::prelude::*;

verus! {

/// Why an operation on the ledger was refused. A refused operation leaves the
/// ledger as it was.
#[derive(Clone, Copy, Debug, PartialEq, Eq, Structural)]
pub enum GhostErrors {
    /// The caller of `init_config` is not the program's upgrade authority.
    UpgradeAuthorityMismatch,
    /// The identity already holds a dev credential.
    CollectionAlreadyInitialized,
    /// The caller holds no dev credential.
    CollectionNotInitialized,
    /// The companion instruction is missing, targets another program, or does
    /// not carry a valid signature over the payload.
    InvalidSignature,
    /// The companion instruction is too short to hold a public key.
    PubkeyParseFailed,
    /// The companion instruction's public key is not the trusted signer's.
    BackendPubkeyMismatch,
    /// The repository is a fork.
    ForkedRepo,
    /// The dev credential does not belong to the caller.
    IncorrectDevState,
    /// The repo credential belongs to another dev credential.
    DevBadgeMismatch,
    /// The developer's tier is below the required minimum.
    DevVerificationFailed,
    /// The voucher's tier is below two.
    LvlNotReached,
    /// A tier outside one to five.
    ReputationLvlInvalid,
    /// A developer tried to vouch for themselves.
    SelfVouchDenied,
    /// The configuration has not been initialized.
    ConfigNotInitialized,
    /// The record to be created already exists.
    AccountAlreadyInUse,
    /// The record to be read or updated does not exist.
    AccountNotInitialized,
    /// A language field is longer than its capacity.
    LanguageTooLong,
    /// The asset-issuance service did not complete its call.
    AssetIssuanceFailed,
    /// A counter would pass its largest value.
    CounterOverflow,
}

} // verus!
