//! The canonical byte layout of the payloads that the trusted signer signs.
//! Integers are big-endian; the signed value is the SHA-256 digest of the layout.
use crate::crypto::{sha256, sha256_of};
use crate::state::{DevStats, RepoStats};
use vstd::prelude::*;

verus! {

/// The four big-endian bytes of `x`.
pub open spec fn be_u32(x: u32) -> Seq<u8> {
    seq![
        (x / 0x100_0000) as u8,
        ((x / 0x1_0000) % 0x100) as u8,
        ((x / 0x100) % 0x100) as u8,
        (x % 0x100) as u8,
    ]
}

/// hashed_username ‖ repo_count ‖ owned_repo_count ‖ total_stars ‖
/// total_commits ‖ prs_merged ‖ issues_closed ‖ followers ‖
/// account_age_days ‖ reputation_level.
pub open spec fn dev_message(s: DevStats) -> Seq<u8> {
    s.hashed_username@ + be_u32(s.repo_count) + be_u32(s.owned_repo_count) + be_u32(s.total_stars)
        + be_u32(s.total_commits) + be_u32(s.prs_merged) + be_u32(s.issues_closed) + be_u32(
        s.followers,
    ) + be_u32(s.account_age_days) + seq![s.reputation_level]
}

/// hashed_username ‖ repo_name_padded ‖ lang1 ‖ lang2 ‖ stars ‖ commits ‖
/// forks ‖ open_issues ‖ is_fork.
pub open spec fn repo_message_of(
    hashed_username: Seq<u8>,
    repo_name_padded: Seq<u8>,
    lang1: Seq<u8>,
    lang2: Seq<u8>,
    stars: u32,
    commits: u32,
    forks: u32,
    open_issues: u32,
    is_fork: u8,
) -> Seq<u8> {
    hashed_username + repo_name_padded + lang1 + lang2 + be_u32(stars) + be_u32(commits) + be_u32(
        forks,
    ) + be_u32(open_issues) + seq![is_fork]
}

/// The canonical message of a repo payload.
pub open spec fn repo_message(s: RepoStats) -> Seq<u8> {
    repo_message_of(
        s.hashed_username@,
        s.repo_name_padded@,
        s.lang1@,
        s.lang2@,
        s.stars,
        s.commits,
        s.forks,
        s.open_issues,
        s.is_fork,
    )
}

/// The digest that the signer signs for a dev payload.
pub open spec fn dev_message_hash(s: DevStats) -> [u8; 32] {
    sha256_of(dev_message(s))
}

/// The digest that the signer signs for a repo payload.
pub open spec fn repo_message_hash(s: RepoStats) -> [u8; 32] {
    sha256_of(repo_message(s))
}

/// Appends `bytes` to `out`.
pub fn append_bytes(out: &mut Vec<u8>, bytes: &[u8])
    ensures
        final(out)@ == old(out)@ + bytes@,
{
    let mut i: usize = 0;
    while i < bytes.len()
        invariant
            i <= bytes@.len(),
            out@ == old(out)@ + bytes@.subrange(0, i as int),
        decreases bytes@.len() - i,
    {
        out.push(bytes[i]);
        i = i + 1;
        assert(bytes@.subrange(0, i as int) =~= bytes@.subrange(0, i - 1) + seq![bytes@[i - 1]]);
    }
    assert(bytes@.subrange(0, i as int) =~= bytes@);
}

/// A fresh vector holding `bytes`.
pub fn bytes_to_vec(bytes: &[u8]) -> (r: Vec<u8>)
    ensures
        r@ == bytes@,
{
    let mut out: Vec<u8> = Vec::new();
    append_bytes(&mut out, bytes);
    out
}

/// Appends the four big-endian bytes of `x` to `out`.
pub fn append_u32_be(out: &mut Vec<u8>, x: u32)
    ensures
        final(out)@ == old(out)@ + be_u32(x),
{
    out.push((x / 0x100_0000) as u8);
    out.push(((x / 0x1_0000) % 0x100) as u8);
    out.push(((x / 0x100) % 0x100) as u8);
    out.push((x % 0x100) as u8);
    assert(final(out)@ =~= old(out)@ + be_u32(x));
}

/// The canonical layout of a dev payload.
pub fn dev_message_bytes(s: &DevStats) -> (r: Vec<u8>)
    ensures
        r@ == dev_message(*s),
{
    let mut out: Vec<u8> = Vec::new();
    append_bytes(&mut out, &s.hashed_username);
    append_u32_be(&mut out, s.repo_count);
    append_u32_be(&mut out, s.owned_repo_count);
    append_u32_be(&mut out, s.total_stars);
    append_u32_be(&mut out, s.total_commits);
    append_u32_be(&mut out, s.prs_merged);
    append_u32_be(&mut out, s.issues_closed);
    append_u32_be(&mut out, s.followers);
    append_u32_be(&mut out, s.account_age_days);
    out.push(s.reputation_level);
    assert(out@ =~= dev_message(*s));
    out
}

/// The canonical layout of a repo payload.
pub fn repo_message_bytes(s: &RepoStats) -> (r: Vec<u8>)
    ensures
        r@ == repo_message(*s),
{
    let mut out: Vec<u8> = Vec::new();
    append_bytes(&mut out, &s.hashed_username);
    append_bytes(&mut out, &s.repo_name_padded);
    append_bytes(&mut out, s.lang1.as_slice());
    append_bytes(&mut out, s.lang2.as_slice());
    append_u32_be(&mut out, s.stars);
    append_u32_be(&mut out, s.commits);
    append_u32_be(&mut out, s.forks);
    append_u32_be(&mut out, s.open_issues);
    out.push(s.is_fork);
    assert(out@ =~= repo_message(*s));
    out
}

/// The digest the signer signs for a dev payload.
pub fn hash_dev_message(s: &DevStats) -> (r: [u8; 32])
    ensures
        r == dev_message_hash(*s),
{
    let bytes = dev_message_bytes(s);
    sha256(bytes.as_slice())
}

/// The digest the signer signs for a repo payload.
pub fn hash_repo_message(s: &RepoStats) -> (r: [u8; 32])
    ensures
        r == repo_message_hash(*s),
{
    let bytes = repo_message_bytes(s);
    sha256(bytes.as_slice())
}

} // verus!
