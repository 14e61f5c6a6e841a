//! The session store: bearer token to session.
//!
//! The store itself holds no lock. A server shares it behind one mutex and
//! takes the lock for a single call of `insert`, `get` or `clear` at a time.

use vstd::prelude::*;
use vstd::hash_map::StringHashMap;
use crate::handler_models::SessionData;

verus! {

/// The sessions of a running service, keyed by bearer token.
pub struct SessionStore {
    sessions: StringHashMap<SessionData>,
}

impl View for SessionStore {
    type V = Map<Seq<char>, SessionData>;

    closed spec fn view(&self) -> Map<Seq<char>, SessionData> {
        self.sessions@
    }
}

/// What reading `token` from a store whose contents are `m` gives.
pub open spec fn lookup(m: Map<Seq<char>, SessionData>, token: Seq<char>) -> Option<SessionData> {
    if m.contains_key(token) {
        Some(m[token])
    } else {
        None
    }
}

impl SessionStore {
    /// An empty store.
    pub fn new() -> (r: SessionStore)
        ensures
            r@ == Map::<Seq<char>, SessionData>::empty(),
    {
        SessionStore { sessions: StringHashMap::new() }
    }

    /// Files `entry` under `token`, replacing what was there.
    pub fn insert(&mut self, token: String, entry: SessionData)
        ensures
            final(self)@ == old(self)@.insert(token@, entry),
    {
        self.sessions.insert(token, entry);
    }

    /// A copy of the session filed under `token`, if any.
    pub fn get(&self, token: &str) -> (r: Option<SessionData>)
        ensures
            r == lookup(self@, token@),
    {
        match self.sessions.get(token) {
            Some(d) => Some(d.duplicate()),
            None => None,
        }
    }

    /// Is a session filed under `token`?
    pub fn contains(&self, token: &str) -> (r: bool)
        ensures
            r == self@.contains_key(token@),
    {
        self.sessions.contains_key(token)
    }

    /// The number of sessions.
    pub fn len(&self) -> (r: usize)
        ensures
            r == self@.len(),
    {
        self.sessions.len()
    }

    /// Drops every session.
    pub fn clear(&mut self)
        ensures
            final(self)@ == Map::<Seq<char>, SessionData>::empty(),
    {
        self.sessions.clear();
    }
}

/// A session read back right after it was filed is the one filed; once the
/// store is cleared, no token finds a session.
pub proof fn lemma_insert_get_clear(
    m: Map<Seq<char>, SessionData>,
    token: Seq<char>,
    entry: SessionData,
)
    ensures
        lookup(m.insert(token, entry), token) == Some(entry),
        lookup(Map::<Seq<char>, SessionData>::empty(), token) is None,
{
}

/// Sessions filed under two different tokens are read back each as it was
/// filed, whichever was filed first.
pub proof fn lemma_distinct_tokens_independent(
    m: Map<Seq<char>, SessionData>,
    t1: Seq<char>,
    e1: SessionData,
    t2: Seq<char>,
    e2: SessionData,
)
    requires
        t1 != t2,
    ensures
        lookup(m.insert(t1, e1).insert(t2, e2), t1) == Some(e1),
        lookup(m.insert(t1, e1).insert(t2, e2), t2) == Some(e2),
        m.insert(t1, e1).insert(t2, e2) == m.insert(t2, e2).insert(t1, e1),
{
    assert(m.insert(t1, e1).insert(t2, e2) =~= m.insert(t2, e2).insert(t1, e1));
}

} // verus!
