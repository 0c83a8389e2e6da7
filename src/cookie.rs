//! Finding the session id in a `Cookie` header: the first `;`-separated
//! entry that, trimmed of ASCII whitespace, starts with `session_id=`.
use crate::auth::bytes_match_at;
use vstd::prelude::*;
use vstd::string::StringSliceAdditionalSpecFns;

verus! {

/// A byte that `str::trim` removes from ASCII text.
pub open spec fn is_ascii_space(b: u8) -> bool {
    b == 32 || (9 <= b <= 13)
}

/// The text without leading whitespace.
pub open spec fn trim_start(s: Seq<u8>) -> Seq<u8>
    decreases s.len(),
{
    if s.len() > 0 && is_ascii_space(s[0]) {
        trim_start(s.drop_first())
    } else {
        s
    }
}

/// The text without trailing whitespace.
pub open spec fn trim_end(s: Seq<u8>) -> Seq<u8>
    decreases s.len(),
{
    if s.len() > 0 && is_ascii_space(s.last()) {
        trim_end(s.drop_last())
    } else {
        s
    }
}

/// The index of the first `;` at or after `from`, or the length.
pub open spec fn entry_end(s: Seq<u8>, from: int) -> int
    recommends
        0 <= from <= s.len(),
    decreases s.len() - from,
{
    if from >= s.len() || s[from] == 59 {
        from
    } else {
        entry_end(s, from + 1)
    }
}

/// The session id in the entries from `from` on, if one holds it.
pub open spec fn session_value_from(s: Seq<u8>, prefix: Seq<u8>, from: int) -> Option<Seq<u8>>
    decreases s.len() - from,
{
    if from < 0 || from > s.len() {
        None
    } else {
        let end = entry_end(s, from);
        let entry = trim_end(trim_start(s.subrange(from, end)));
        if entry.len() >= prefix.len() && entry.subrange(0, prefix.len() as int) == prefix {
            Some(entry.subrange(prefix.len() as int, entry.len() as int))
        } else if end >= s.len() || end < from {
            None
        } else {
            session_value_from(s, prefix, end + 1)
        }
    }
}

/// The session id a cookie header holds: the rest of the first entry that
/// starts with `session_id=`, or nothing.
pub open spec fn session_value(cookie: Seq<u8>) -> Option<Seq<u8>> {
    session_value_from(cookie, "session_id=".spec_bytes(), 0)
}

proof fn lemma_entry_end_bounds(s: Seq<u8>, from: int)
    requires
        0 <= from <= s.len(),
    ensures
        from <= entry_end(s, from) <= s.len(),
        forall|k: int| from <= k < entry_end(s, from) ==> s[k] != 59,
        entry_end(s, from) < s.len() ==> s[entry_end(s, from)] == 59,
    decreases s.len() - from,
{
    if from < s.len() && s[from] != 59 {
        lemma_entry_end_bounds(s, from + 1);
    }
}

fn find_entry_end(s: &[u8], from: usize) -> (r: usize)
    requires
        from <= s@.len(),
    ensures
        r as int == entry_end(s@, from as int),
{
    let mut i = from;
    while i < s.len() && s[i] != 59
        invariant
            from <= i <= s@.len(),
            entry_end(s@, from as int) == entry_end(s@, i as int),
        decreases s@.len() - i,
    {
        i = i + 1;
    }
    i
}

fn trimmed_bounds(s: &[u8], from: usize, end: usize) -> (r: (usize, usize))
    requires
        from <= end <= s@.len(),
    ensures
        from <= r.0 <= r.1 <= end,
        s@.subrange(r.0 as int, r.1 as int) == trim_end(trim_start(s@.subrange(from as int, end as int))),
{
    let mut lo = from;
    while lo < end && (s[lo] == 32 || (9 <= s[lo] && s[lo] <= 13))
        invariant
            from <= lo <= end <= s@.len(),
            trim_start(s@.subrange(from as int, end as int)) == trim_start(s@.subrange(lo as int, end as int)),
        decreases end - lo,
    {
        assert(s@.subrange(lo as int, end as int).drop_first() =~= s@.subrange(lo + 1, end as int));
        lo = lo + 1;
    }
    let mut hi = end;
    while hi > lo && (s[hi - 1] == 32 || (9 <= s[hi - 1] && s[hi - 1] <= 13))
        invariant
            from <= lo <= hi <= end <= s@.len(),
            trim_end(s@.subrange(lo as int, end as int)) == trim_end(s@.subrange(lo as int, hi as int)),
        decreases hi - lo,
    {
        assert(s@.subrange(lo as int, hi as int).drop_last() =~= s@.subrange(lo as int, hi - 1));
        hi = hi - 1;
    }
    (lo, hi)
}

/// The bounds, in the header's bytes, of the session id a cookie header holds.
pub fn session_id_bounds(cookie: &str) -> (r: Option<(usize, usize)>)
    ensures
        match r {
            Some((a, b)) => a <= b <= cookie.spec_bytes().len() && session_value(cookie.spec_bytes())
                == Some(cookie.spec_bytes().subrange(a as int, b as int)),
            None => session_value(cookie.spec_bytes()) is None,
        },
{
    let s = cookie.as_bytes();
    let prefix = "session_id=".as_bytes();
    let mut from: usize = 0;
    while from <= s.len()
        invariant
            s@ == cookie.spec_bytes(),
            prefix@ == "session_id=".spec_bytes(),
            from <= s@.len() + 1,
            session_value(s@) == session_value_from(s@, prefix@, from as int),
        decreases s@.len() + 1 - from,
    {
        let end = find_entry_end(s, from);
        proof {
            lemma_entry_end_bounds(s@, from as int);
        }
        let (lo, hi) = trimmed_bounds(s, from, end);
        let ghost entry = s@.subrange(lo as int, hi as int);
        if hi - lo >= prefix.len() && bytes_match_at(s, lo, prefix) {
            assert(entry.subrange(0, prefix@.len() as int) =~= s@.subrange(lo as int, lo + prefix@.len()));
            assert(entry.subrange(prefix@.len() as int, entry.len() as int) =~= s@.subrange(lo + prefix@.len(), hi as int));
            return Some((lo + prefix.len(), hi));
        }
        proof {
            if hi - lo >= prefix@.len() {
                assert(entry.subrange(0, prefix@.len() as int) =~= s@.subrange(lo as int, lo + prefix@.len()));
            }
        }
        if end >= s.len() {
            return None;
        }
        from = end + 1;
    }
    None
}

} // verus!
