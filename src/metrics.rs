//! Reputation metrics computed from what the code-hosting service reports.
use crate::ledger::MAX_LANG_LEN;
use crate::models::{Contributor, Repo};
use vstd::prelude::*;
use vstd::utf8::encode_utf8;

verus! {

/// Seconds in a day.
pub const SECONDS_PER_DAY: i64 = 86400;

/// `n`, or the largest `u32` where `n` is larger.
pub open spec fn clamp_u32(n: int) -> u32 {
    if n > u32::MAX {
        u32::MAX
    } else if n < 0 {
        0
    } else {
        n as u32
    }
}

/// The tier that repository count, commit count and account age earn:
/// 5 Legend, 4 Architect, 3 Builder, 2 Coder, 1 Ghost.
pub open spec fn reputation_level_of(repo_count: u32, total_commits: u32, account_age_days: u32) -> u8 {
    if repo_count >= 100 && total_commits >= 1500 && account_age_days >= 730 {
        5
    } else if repo_count >= 50 && total_commits >= 500 && account_age_days >= 365 {
        4
    } else if repo_count >= 20 && total_commits >= 200 && account_age_days >= 120 {
        3
    } else if repo_count >= 5 && total_commits >= 30 {
        2
    } else {
        1
    }
}

/// The tier that the metrics earn.
pub fn get_reputation_level(repo_count: u32, total_commits: u32, account_age_days: u32) -> (r: u8)
    ensures
        r == reputation_level_of(repo_count, total_commits, account_age_days),
        1 <= r <= 5,
{
    if repo_count >= 100 && total_commits >= 1500 && account_age_days >= 730 {
        5
    } else if repo_count >= 50 && total_commits >= 500 && account_age_days >= 365 {
        4
    } else if repo_count >= 20 && total_commits >= 200 && account_age_days >= 120 {
        3
    } else if repo_count >= 5 && total_commits >= 30 {
        2
    } else {
        1
    }
}

/// How many of the repositories are not forks.
pub open spec fn non_fork_count(repos: Seq<Repo>) -> int
    decreases repos.len(),
{
    if repos.len() == 0 {
        0
    } else {
        non_fork_count(repos.drop_last()) + if repos.last().fork {
            0int
        } else {
            1int
        }
    }
}

/// The stars of the repositories that `username` owns.
pub open spec fn owned_stars(repos: Seq<Repo>, username: Seq<char>) -> int
    decreases repos.len(),
{
    if repos.len() == 0 {
        0
    } else {
        owned_stars(repos.drop_last(), username) + if repos.last().owner.login@ == username {
            repos.last().stargazers_count as int
        } else {
            0int
        }
    }
}

/// The sum of the counts.
pub open spec fn total_of(counts: Seq<u32>) -> int
    decreases counts.len(),
{
    if counts.len() == 0 {
        0
    } else {
        total_of(counts.drop_last()) + counts.last()
    }
}

fn saturating_add(acc: u32, x: u32) -> (r: u32)
    ensures
        r == (if acc + x > u32::MAX {
            u32::MAX
        } else {
            (acc + x) as u32
        }),
{
    if acc > u32::MAX - x {
        u32::MAX
    } else {
        acc + x
    }
}

/// Repository count, count of repositories that are not forks, total commits
/// and the stars of the repositories `username` owns; each saturates at the
/// largest `u32`.
pub fn compute_dev_metrics(repos: &Vec<Repo>, commits_per_repo: &Vec<u32>, username: &String) -> (r: (
    u32,
    u32,
    u32,
    u32,
))
    ensures
        r.0 == clamp_u32(repos@.len() as int),
        r.1 == clamp_u32(non_fork_count(repos@)),
        r.2 == clamp_u32(total_of(commits_per_repo@)),
        r.3 == clamp_u32(owned_stars(repos@, username@)),
{
    let repo_count: u32 = if repos.len() > u32::MAX as usize {
        u32::MAX
    } else {
        repos.len() as u32
    };
    let mut owned: u32 = 0;
    let mut stars: u32 = 0;
    let mut i: usize = 0;
    while i < repos.len()
        invariant
            i <= repos@.len(),
            owned == clamp_u32(non_fork_count(repos@.subrange(0, i as int))),
            stars == clamp_u32(owned_stars(repos@.subrange(0, i as int), username@)),
            non_fork_count(repos@.subrange(0, i as int)) >= 0,
            owned_stars(repos@.subrange(0, i as int), username@) >= 0,
        decreases repos@.len() - i,
    {
        let ghost prefix = repos@.subrange(0, i as int);
        assert(repos@.subrange(0, i + 1).drop_last() =~= prefix);
        let repo = &repos[i];
        if !repo.fork {
            owned = saturating_add(owned, 1);
        }
        if repo.owner.login == *username {
            stars = saturating_add(stars, repo.stargazers_count);
        }
        i = i + 1;
    }
    assert(repos@.subrange(0, i as int) =~= repos@);
    let mut commits: u32 = 0;
    let mut j: usize = 0;
    while j < commits_per_repo.len()
        invariant
            j <= commits_per_repo@.len(),
            commits == clamp_u32(total_of(commits_per_repo@.subrange(0, j as int))),
            total_of(commits_per_repo@.subrange(0, j as int)) >= 0,
        decreases commits_per_repo@.len() - j,
    {
        assert(commits_per_repo@.subrange(0, j + 1).drop_last() =~= commits_per_repo@.subrange(
            0,
            j as int,
        ));
        commits = saturating_add(commits, commits_per_repo[j]);
        j = j + 1;
    }
    assert(commits_per_repo@.subrange(0, j as int) =~= commits_per_repo@);
    (repo_count, owned, commits, stars)
}

/// The commits of the first contributor whose login is `username`, or zero.
pub open spec fn contributions_of(contributors: Seq<Contributor>, username: Seq<char>) -> u32
    decreases contributors.len(),
{
    if contributors.len() == 0 {
        0
    } else if contributors[0].login@ == username {
        contributors[0].contributions
    } else {
        contributions_of(contributors.drop_first(), username)
    }
}

/// The commits `username` made to a repository, from its contributor list.
pub fn commits_by(contributors: &Vec<Contributor>, username: &String) -> (r: u32)
    ensures
        r == contributions_of(contributors@, username@),
{
    let mut i: usize = 0;
    assert(contributors@.subrange(0, contributors@.len() as int) =~= contributors@);
    while i < contributors.len()
        invariant
            i <= contributors@.len(),
            contributions_of(contributors@, username@) == contributions_of(
                contributors@.subrange(i as int, contributors@.len() as int),
                username@,
            ),
        decreases contributors@.len() - i,
    {
        let ghost rest = contributors@.subrange(i as int, contributors@.len() as int);
        assert(rest.drop_first() =~= contributors@.subrange(i + 1, contributors@.len() as int));
        if contributors[i].login == *username {
            return contributors[i].contributions;
        }
        i = i + 1;
    }
    0
}

/// Whole days from `created` to `now`, both in seconds since the epoch;
/// zero if `created` is later, the largest `u32` if the span is longer.
pub open spec fn age_in_days(created: i64, now: i64) -> u32 {
    clamp_u32((now - created) / (SECONDS_PER_DAY as int))
}

/// The age in whole days of an account created at `created`, seen at `now`.
pub fn account_age_days(created: i64, now: i64) -> (r: u32)
    ensures
        r == age_in_days(created, now),
{
    if now <= created {
        return 0;
    }
    let span: i128 = now as i128 - created as i128;
    let days: i128 = span / (SECONDS_PER_DAY as i128);
    if days > u32::MAX as i128 {
        u32::MAX
    } else {
        days as u32
    }
}

/// The index of `skip` as an integer, or -1 for none.
pub open spec fn skip_index(skip: Option<usize>) -> int {
    match skip {
        Some(k) => k as int,
        None => -1,
    }
}

/// Entry `i` has the most bytes of all entries but `skip`, and no earlier
/// entry but `skip` has as many: the first of the heaviest.
pub open spec fn is_heaviest(langs: Seq<(String, u64)>, i: int, skip: int) -> bool {
    &&& 0 <= i < langs.len()
    &&& i != skip
    &&& forall|j: int| 0 <= j < langs.len() && j != skip ==> #[trigger] langs[j].1 <= langs[i].1
    &&& forall|j: int| 0 <= j < i && j != skip ==> #[trigger] langs[j].1 < langs[i].1
}

/// Some entry is not `skip`.
pub open spec fn has_candidate(langs: Seq<(String, u64)>, skip: int) -> bool {
    langs.len() >= 2 || (langs.len() == 1 && skip != 0)
}

/// The first of the heaviest entries but `skip`.
pub open spec fn heaviest_index(langs: Seq<(String, u64)>, skip: int) -> int {
    choose|i: int| is_heaviest(langs, i, skip)
}

/// Only one entry is the first of the heaviest.
pub proof fn lemma_heaviest_unique(langs: Seq<(String, u64)>, i: int, k: int, skip: int)
    requires
        is_heaviest(langs, i, skip),
        is_heaviest(langs, k, skip),
    ensures
        i == k,
{
    if i < k {
        assert(langs[i].1 < langs[k].1);
    } else if k < i {
        assert(langs[k].1 < langs[i].1);
    }
}

/// The first of the heaviest entries but `skip`, if any entry is not `skip`.
pub fn heaviest_language(langs: &Vec<(String, u64)>, skip: Option<usize>) -> (r: Option<usize>)
    ensures
        r is None <==> !has_candidate(langs@, skip_index(skip)),
        r is Some ==> is_heaviest(langs@, r->0 as int, skip_index(skip)),
        r is Some ==> r->0 as int == heaviest_index(langs@, skip_index(skip)),
{
    let ghost sk = skip_index(skip);
    let mut best: Option<usize> = None;
    let mut i: usize = 0;
    while i < langs.len()
        invariant
            i <= langs@.len(),
            sk == skip_index(skip),
            best is None ==> (i == 0 || (i == 1 && sk == 0)),
            best is Some ==> {
                let b = best->0 as int;
                &&& 0 <= b < i
                &&& b != sk
                &&& forall|j: int| 0 <= j < i && j != sk ==> #[trigger] langs@[j].1 <= langs@[b].1
                &&& forall|j: int| 0 <= j < b && j != sk ==> #[trigger] langs@[j].1 < langs@[b].1
            },
        decreases langs@.len() - i,
    {
        let is_skipped = match skip {
            Some(k) => k == i,
            None => false,
        };
        if !is_skipped {
            match best {
                None => {
                    best = Some(i);
                },
                Some(b) => {
                    if langs[i].1 > langs[b].1 {
                        best = Some(i);
                    }
                },
            }
        }
        i = i + 1;
    }
    match best {
        Some(b) => {
            proof {
                let c = heaviest_index(langs@, sk);
                assert(is_heaviest(langs@, b as int, sk));
                lemma_heaviest_unique(langs@, b as int, c, sk);
            }
        },
        None => {},
    }
    best
}

/// A language name as a language field: its UTF-8 bytes, cut to the field's
/// capacity.
pub open spec fn lang_bytes(name: Seq<char>) -> Seq<u8> {
    let b = encode_utf8(name);
    if b.len() <= MAX_LANG_LEN {
        b
    } else {
        b.subrange(0, MAX_LANG_LEN as int)
    }
}

/// The language field of the first heaviest entry but `skip`; empty if none.
pub open spec fn language_field(langs: Seq<(String, u64)>, skip: int) -> Seq<u8> {
    if has_candidate(langs, skip) {
        lang_bytes(langs[heaviest_index(langs, skip)].0@)
    } else {
        Seq::empty()
    }
}

/// The primary and secondary language fields: the heaviest language by
/// bytes, then the heaviest of the others.
pub open spec fn top_language_fields(langs: Seq<(String, u64)>) -> (Seq<u8>, Seq<u8>) {
    let first = language_field(langs, -1);
    let second = if has_candidate(langs, -1) {
        language_field(langs, heaviest_index(langs, -1))
    } else {
        Seq::empty()
    };
    (first, second)
}

/// The language field for a language name.
pub fn language_field_of(name: &String) -> (r: Vec<u8>)
    ensures
        r@ == lang_bytes(name@),
{
    let bytes = name.as_str().as_bytes();
    let n: usize = if bytes.len() < MAX_LANG_LEN {
        bytes.len()
    } else {
        MAX_LANG_LEN
    };
    let mut out: Vec<u8> = Vec::new();
    let mut i: usize = 0;
    while i < n
        invariant
            i <= n <= bytes@.len(),
            out@ == bytes@.subrange(0, i as int),
        decreases n - i,
    {
        out.push(bytes[i]);
        i = i + 1;
        assert(out@ =~= bytes@.subrange(0, i as int));
    }
    assert(bytes@.subrange(0, bytes@.len() as int) =~= bytes@);
    out
}

/// The primary and secondary language fields of a repository, from its
/// languages and their sizes in bytes.
pub fn top_languages(langs: &Vec<(String, u64)>) -> (r: (Vec<u8>, Vec<u8>))
    ensures
        (r.0@, r.1@) == top_language_fields(langs@),
{
    match heaviest_language(langs, None) {
        None => (Vec::new(), Vec::new()),
        Some(first) => {
            let lang1 = language_field_of(&langs[first].0);
            let lang2 = match heaviest_language(langs, Some(first)) {
                None => Vec::new(),
                Some(second) => language_field_of(&langs[second].0),
            };
            (lang1, lang2)
        },
    }
}

/// The instant a date-time text with an offset names, in seconds since the
/// epoch, as chrono's `DateTime<Utc>` parser reads it: RFC 3339 and the
/// relaxed forms that parser also takes (a space instead of `T`, say); none
/// for a text it does not take.
pub uninterp spec fn utc_timestamp_of(text: Seq<char>) -> Option<i64>;

/// Relies on `chrono`'s `FromStr` for `DateTime<Utc>` and `DateTime::timestamp`:
/// the parse depends on the text alone.
#[verifier::external_body]
pub(crate) fn parse_utc_timestamp(text: &str) -> (r: Option<i64>)
    ensures
        r == utc_timestamp_of(text@),
{
    match text.parse::<chrono::DateTime<chrono::Utc>>() {
        Ok(t) => Some(t.timestamp()),
        Err(_) => None,
    }
}

} // verus!
