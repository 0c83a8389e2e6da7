//! The trusted signer's side: it hashes a user's name, lays out the metrics
//! in the canonical message, and signs the message's digest.
use crate::crypto::{
    ed25519_accepts, ed25519_public_key, ed25519_public_of, ed25519_sign, ed25519_signature_of, hex_decode,
    hex_decoded, is_hex_text, sha256, sha256_of,
};
use crate::message::{
    bytes_to_vec, dev_message_hash, hash_dev_message, hash_repo_message, repo_message_of,
};
use crate::state::{DevStats, RepoStats};
use vstd::prelude::*;
use vstd::string::StringSliceAdditionalSpecFns;

verus! {

/// The digest that stands for a user name in every credential.
pub fn hash_username(username: &str) -> (r: [u8; 32])
    ensures
        r == sha256_of(username.spec_bytes()),
{
    sha256(username.as_bytes())
}

/// The 32-byte secret key spelled by a hex text, if it spells exactly 32 bytes.
pub fn signing_key_from_hex(secret_hex: &str) -> (r: Option<[u8; 32]>)
    ensures
        r is Some <==> is_hex_text(secret_hex.spec_bytes()) && hex_decoded(
            secret_hex.spec_bytes(),
        ).len() == 32,
        r is Some ==> r->0@ == hex_decoded(secret_hex.spec_bytes()),
{
    let bytes = match hex_decode(secret_hex) {
        None => return None,
        Some(b) => b,
    };
    if bytes.len() != 32 {
        return None;
    }
    let mut key = [0u8; 32];
    let mut i: usize = 0;
    while i < 32
        invariant
            i <= 32,
            bytes@.len() == 32,
            forall|j: int| 0 <= j < i ==> key[j] == bytes@[j],
        decreases 32 - i,
    {
        key[i] = bytes[i];
        i = i + 1;
    }
    assert(key@ =~= bytes@);
    Some(key)
}

/// A repository name as its fixed 32-byte field: the first 32 bytes of the
/// name, padded with zero bytes.
pub open spec fn padded_name(name: Seq<u8>) -> Seq<u8> {
    Seq::new(32, |i: int| if i < name.len() { name[i] } else { 0u8 })
}

/// The fixed 32-byte field of a repository name.
pub fn pad_repo_name(name: &[u8]) -> (r: [u8; 32])
    ensures
        r@ == padded_name(name@),
{
    let mut out = [0u8; 32];
    let mut i: usize = 0;
    while i < 32 && i < name.len()
        invariant
            i <= 32,
            i <= name@.len(),
            forall|j: int| 0 <= j < i ==> out[j] == name@[j],
            forall|j: int| i <= j < 32 ==> out[j] == 0,
        decreases 32 - i,
    {
        out[i] = name[i];
        i = i + 1;
    }
    assert(out@ =~= padded_name(name@));
    out
}

/// Signs developer metrics: returns the signature, the hashed user name and
/// the signed digest of the canonical dev message.
pub fn sign_dev_badge_metrics(
    secret: &[u8; 32],
    username: &str,
    repo_count: u32,
    total_commits: u32,
    owned_repos: u32,
    total_stars: u32,
    prs_merged: u32,
    issues_closed: u32,
    followers: u32,
    account_age_days: u32,
    reputation_level: u8,
) -> (r: (Vec<u8>, [u8; 32], Vec<u8>))
    ensures
        r.1 == sha256_of(username.spec_bytes()),
        r.2@ == dev_message_hash(
            (DevStats {
                hashed_username: r.1,
                repo_count,
                owned_repo_count: owned_repos,
                total_stars,
                total_commits,
                prs_merged,
                issues_closed,
                followers,
                account_age_days,
                reputation_level,
            }),
        )@,
        r.0@ == ed25519_signature_of(*secret, r.2@)@,
        ed25519_accepts(ed25519_public_of(*secret), r.2@, r.0@),
{
    let hashed_username = hash_username(username);
    let stats = DevStats {
        hashed_username,
        repo_count,
        owned_repo_count: owned_repos,
        total_stars,
        total_commits,
        prs_merged,
        issues_closed,
        followers,
        account_age_days,
        reputation_level,
    };
    let digest = hash_dev_message(&stats);
    let signature = ed25519_sign(secret, &digest);
    (bytes_to_vec(&signature), hashed_username, bytes_to_vec(&digest))
}

/// Signs repository metrics: returns the signature, the hashed user name and
/// the signed digest of the canonical repo message, whose name field is the
/// padded repository name.
pub fn sign_repo_badge_metrics(
    secret: &[u8; 32],
    username: &str,
    repo_name: &str,
    lang1: &Vec<u8>,
    lang2: &Vec<u8>,
    stars: u32,
    commits: u32,
    fork_counts: u32,
    issues_open_count: u32,
    is_fork: u8,
) -> (r: (Vec<u8>, [u8; 32], Vec<u8>))
    ensures
        r.1 == sha256_of(username.spec_bytes()),
        r.2@ == sha256_of(
            repo_message_of(
                r.1@,
                padded_name(repo_name.spec_bytes()),
                lang1@,
                lang2@,
                stars,
                commits,
                fork_counts,
                issues_open_count,
                is_fork,
            ),
        )@,
        r.0@ == ed25519_signature_of(*secret, r.2@)@,
        ed25519_accepts(ed25519_public_of(*secret), r.2@, r.0@),
{
    let hashed_username = hash_username(username);
    let name = pad_repo_name(repo_name.as_bytes());
    let stats = RepoStats {
        repo_name_padded: name,
        hashed_username,
        stars,
        commits,
        forks: fork_counts,
        open_issues: issues_open_count,
        is_fork,
        lang1: bytes_to_vec(lang1.as_slice()),
        lang2: bytes_to_vec(lang2.as_slice()),
    };
    let digest = hash_repo_message(&stats);
    let signature = ed25519_sign(secret, &digest);
    (bytes_to_vec(&signature), hashed_username, bytes_to_vec(&digest))
}

/// The signer's public key.
pub fn signer_public_key(secret: &[u8; 32]) -> (r: Vec<u8>)
    ensures
        r@ == ed25519_public_of(*secret)@,
{
    bytes_to_vec(&ed25519_public_key(secret))
}

} // verus!
