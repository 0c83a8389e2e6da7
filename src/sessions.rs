//! An in-memory store of login sessions: a session id stands for an access token.
use crate::crypto::{is_alphanumeric, random_alphanumeric};
use crate::models::AuthStatus;
use vstd::prelude::*;

verus! {

/// The length of a session id.
pub const SESSION_ID_LEN: usize = 16;

/// The token the latest entry for `id` holds, if any entry is for `id`.
pub open spec fn token_of(entries: Seq<(String, String)>, id: Seq<char>) -> Option<Seq<char>>
    decreases entries.len(),
{
    if entries.len() == 0 {
        None
    } else if entries.last().0@ == id {
        Some(entries.last().1@)
    } else {
        token_of(entries.drop_last(), id)
    }
}

/// Session ids with their access tokens; a later entry for an id replaces
/// an earlier one.
pub struct SessionStore {
    pub entries: Vec<(String, String)>,
}

impl SessionStore {
    /// The token that session `id` holds.
    pub open spec fn token(&self, id: Seq<char>) -> Option<Seq<char>> {
        token_of(self.entries@, id)
    }

    /// A store with no session.
    pub fn new() -> (r: Self)
        ensures
            forall|id: Seq<char>| r.token(id) is None,
    {
        SessionStore { entries: Vec::new() }
    }

    /// Lets session `session_id` stand for `token_access`, replacing what it
    /// stood for in place; other sessions are kept, and an id already present
    /// takes no new entry.
    pub fn insert(&mut self, session_id: String, token_access: String)
        ensures
            final(self).token(session_id@) == Some(token_access@),
            forall|id: Seq<char>| id != session_id@ ==> final(self).token(id) == old(self).token(id),
            old(self).token(session_id@) is Some ==> final(self).entries@.len() == old(
                self,
            ).entries@.len(),
    {
        let ghost before = self.entries@;
        match find_latest(&self.entries, &session_id) {
            Some(i) => {
                let entry = (session_id, token_access);
                let ghost e = entry;
                self.entries.set(i, entry);
                proof {
                    assert(self.entries@ == before.update(i as int, e));
                    lemma_token_at(self.entries@, i as int, e.0@);
                    assert forall|id: Seq<char>| id != e.0@ implies token_of(self.entries@, id)
                        == token_of(before, id) by {
                        lemma_token_update(before, i as int, e, id);
                    }
                }
            },
            None => {
                self.entries.push((session_id, token_access));
                assert(self.entries@.drop_last() =~= before);
            },
        }
    }
}

/// The token of the entry at `i`, when no later entry is for the same id.
proof fn lemma_token_at(entries: Seq<(String, String)>, i: int, id: Seq<char>)
    requires
        0 <= i < entries.len(),
        entries[i].0@ == id,
        forall|j: int| i < j < entries.len() ==> #[trigger] entries[j].0@ != id,
    ensures
        token_of(entries, id) == Some(entries[i].1@),
    decreases entries.len(),
{
    if i < entries.len() - 1 {
        let shorter = entries.drop_last();
        assert forall|j: int| i < j < shorter.len() implies #[trigger] shorter[j].0@ != id by {
            assert(shorter[j] == entries[j]);
        }
        lemma_token_at(shorter, i, id);
    }
}

/// Replacing an entry that is not for `id` by another that is not either
/// leaves the token of `id` as it was.
proof fn lemma_token_update(
    entries: Seq<(String, String)>,
    i: int,
    e: (String, String),
    id: Seq<char>,
)
    requires
        0 <= i < entries.len(),
        entries[i].0@ == e.0@,
        e.0@ != id,
    ensures
        token_of(entries.update(i, e), id) == token_of(entries, id),
    decreases entries.len(),
{
    let updated = entries.update(i, e);
    if i == entries.len() - 1 {
        assert(updated.drop_last() =~= entries.drop_last());
    } else {
        assert(updated.drop_last() =~= entries.drop_last().update(i, e));
        lemma_token_update(entries.drop_last(), i, e, id);
    }
}

/// The index of the latest entry for `session_id`, if there is one.
fn find_latest(entries: &Vec<(String, String)>, session_id: &String) -> (r: Option<usize>)
    ensures
        match r {
            Some(i) => {
                &&& i < entries@.len()
                &&& entries@[i as int].0@ == session_id@
                &&& forall|j: int| i < j < entries@.len() ==> #[trigger] entries@[j].0@
                    != session_id@
            },
            None => token_of(entries@, session_id@) is None && forall|j: int|
                0 <= j < entries@.len() ==> #[trigger] entries@[j].0@ != session_id@,
        },
{
    let mut i: usize = entries.len();
    assert(entries@.subrange(0, i as int) =~= entries@);
    while i > 0
        invariant
            i <= entries@.len(),
            forall|j: int| i <= j < entries@.len() ==> #[trigger] entries@[j].0@ != session_id@,
            token_of(entries@, session_id@) == token_of(entries@.subrange(0, i as int), session_id@),
        decreases i,
    {
        if entries[i - 1].0 == *session_id {
            return Some(i - 1);
        }
        assert(entries@.subrange(0, i as int).drop_last() =~= entries@.subrange(0, i - 1));
        i = i - 1;
    }
    None
}

/// Opens a session for `token_access` under a fresh random id of sixteen
/// letters and digits, and returns the id.
pub fn create_session(store: &mut SessionStore, token_access: String) -> (r: String)
    ensures
        r@.len() == SESSION_ID_LEN,
        forall|i: int| 0 <= i < r@.len() ==> is_alphanumeric(#[trigger] r@[i]),
        final(store).token(r@) == Some(token_access@),
        forall|id: Seq<char>| id != r@ ==> final(store).token(id) == old(store).token(id),
{
    let session_id = random_alphanumeric(SESSION_ID_LEN);
    let id = session_id.clone();
    store.insert(session_id, token_access);
    id
}

/// The access token that session `session_id` stands for.
pub fn get_token(store: &SessionStore, session_id: String) -> (r: Option<String>)
    ensures
        match r {
            Some(t) => store.token(session_id@) == Some(t@),
            None => store.token(session_id@) is None,
        },
{
    match find_latest(&store.entries, &session_id) {
        Some(i) => {
            proof {
                lemma_token_at(store.entries@, i as int, session_id@);
            }
            Some(store.entries[i].1.clone())
        },
        None => None,
    }
}

/// The login status for the session found, if any.
pub fn auth_status(session_username: Option<String>) -> (r: AuthStatus)
    ensures
        r.authenticated == session_username is Some,
        r.username == session_username,
{
    match session_username {
        Some(name) => AuthStatus { authenticated: true, username: Some(name) },
        None => AuthStatus { authenticated: false, username: None },
    }
}

} // verus!
