//! Session persistence seam and the in-memory store.

use vstd::prelude::*;
use crate::domain::{Session, SessionId, SessionView};
use crate::text::str_eq;

verus! {

/// Session persistence port. Every implementation behaves as a map from session
/// id to session.
pub trait SessionStorePort {
    /// The stored sessions, by id.
    spec fn sessions(&self) -> Map<Seq<char>, SessionView>;

    /// Stores `session` under its id (replacing any session with that id).
    fn insert(&mut self, session: Session) -> (id: SessionId)
        ensures
            id.0@ == session.id.0@,
            final(self).sessions() == old(self).sessions().insert(session.id.0@, session@),
    ;

    /// The session stored under `id`.
    fn get(&self, id: &SessionId) -> (r: Option<Session>)
        ensures
            r matches Some(s) ==> self.sessions().contains_key(id.0@) && s@ == self.sessions()[id.0@],
            r is None ==> !self.sessions().contains_key(id.0@),
    ;

    /// Stores `session`, reporting whether a session with that id existed.
    fn update(&mut self, session: Session) -> (existed: bool)
        ensures
            existed == old(self).sessions().contains_key(session.id.0@),
            final(self).sessions() == old(self).sessions().insert(session.id.0@, session@),
    ;

    /// Removes the session stored under `id`, reporting whether there was one.
    fn delete(&mut self, id: &SessionId) -> (existed: bool)
        ensures
            existed == old(self).sessions().contains_key(id.0@),
            final(self).sessions() == old(self).sessions().remove(id.0@),
    ;

    /// The ids of all stored sessions, each once.
    fn list_ids(&self) -> (r: Vec<SessionId>)
        ensures
            forall|i: int, j: int| 0 <= i < j < r@.len() ==> r@[i].0@ != r@[j].0@,
            forall|i: int| 0 <= i < r@.len() ==> self.sessions().contains_key(#[trigger] r@[i].0@),
            forall|k: Seq<char>|
                self.sessions().contains_key(k) ==> exists|i: int| 0 <= i < r@.len() && r@[i].0@ == k,
    ;

    /// Number of stored sessions.
    fn len(&self) -> (r: usize)
        ensures
            self.sessions().dom().finite(),
            r == self.sessions().len(),
    ;

    /// Whether no session is stored.
    fn is_empty(&self) -> (r: bool)
        ensures
            r == (self.sessions().len() == 0),
    ;
}

/// The sessions of a list, by id (a later session with the same id wins).
pub open spec fn session_map(s: Seq<Session>) -> Map<Seq<char>, SessionView>
    decreases s.len(),
{
    if s.len() == 0 {
        Map::empty()
    } else {
        session_map(s.drop_last()).insert(s.last().id.0@, s.last()@)
    }
}

/// No two sessions in the list share an id.
pub open spec fn unique_ids(s: Seq<Session>) -> bool {
    forall|i: int, j: int| 0 <= i < j < s.len() ==> s[i].id.0@ != s[j].id.0@
}

proof fn lemma_map_index(s: Seq<Session>, i: int)
    requires
        unique_ids(s),
        0 <= i < s.len(),
    ensures
        session_map(s).contains_key(s[i].id.0@),
        session_map(s)[s[i].id.0@] == s[i]@,
    decreases s.len(),
{
    if i < s.len() - 1 {
        lemma_map_index(s.drop_last(), i);
    }
}

proof fn lemma_map_absent(s: Seq<Session>, k: Seq<char>)
    requires
        forall|i: int| 0 <= i < s.len() ==> s[i].id.0@ != k,
    ensures
        !session_map(s).contains_key(k),
    decreases s.len(),
{
    if s.len() > 0 {
        lemma_map_absent(s.drop_last(), k);
    }
}

proof fn lemma_map_update(s: Seq<Session>, i: int, x: Session)
    requires
        unique_ids(s),
        0 <= i < s.len(),
        s[i].id.0@ == x.id.0@,
    ensures
        session_map(s.update(i, x)) == session_map(s).insert(x.id.0@, x@),
        unique_ids(s.update(i, x)),
    decreases s.len(),
{
    let u = s.update(i, x);
    if i == s.len() - 1 {
        assert(u.drop_last() =~= s.drop_last());
        assert(session_map(u) =~= session_map(s).insert(x.id.0@, x@));
    } else {
        lemma_map_update(s.drop_last(), i, x);
        assert(u.drop_last() =~= s.drop_last().update(i, x));
        assert(session_map(u) =~= session_map(s).insert(x.id.0@, x@));
    }
}

proof fn lemma_map_remove(s: Seq<Session>, i: int)
    requires
        unique_ids(s),
        0 <= i < s.len(),
    ensures
        session_map(s.remove(i)) == session_map(s).remove(s[i].id.0@),
        unique_ids(s.remove(i)),
    decreases s.len(),
{
    let r = s.remove(i);
    let k = s[i].id.0@;
    if i == s.len() - 1 {
        assert(r =~= s.drop_last());
        lemma_map_absent(s.drop_last(), k);
        assert(session_map(r) =~= session_map(s).remove(k));
    } else {
        lemma_map_remove(s.drop_last(), i);
        assert(r.drop_last() =~= s.drop_last().remove(i));
        assert(r.last() == s.last());
        assert(session_map(r) =~= session_map(s).remove(k));
    }
}

proof fn lemma_map_len(s: Seq<Session>)
    requires
        unique_ids(s),
    ensures
        session_map(s).dom().finite(),
        session_map(s).len() == s.len(),
    decreases s.len(),
{
    if s.len() > 0 {
        lemma_map_len(s.drop_last());
        lemma_map_absent(s.drop_last(), s.last().id.0@);
    }
}

proof fn lemma_map_keys(s: Seq<Session>, k: Seq<char>)
    requires
        session_map(s).contains_key(k),
    ensures
        exists|i: int| 0 <= i < s.len() && s[i].id.0@ == k,
    decreases s.len(),
{
    if s.len() > 0 && s.last().id.0@ != k {
        lemma_map_keys(s.drop_last(), k);
        let i = choose|i: int| 0 <= i < s.drop_last().len() && s.drop_last()[i].id.0@ == k;
        assert(s[i].id.0@ == k);
    }
}

/// In-memory session store.
pub struct SessionStore {
    entries: Vec<Session>,
}

impl SessionStore {
    #[verifier::type_invariant]
    spec fn inv(&self) -> bool {
        unique_ids(self.entries@)
    }

    /// An empty store.
    pub fn new() -> (r: Self)
        ensures
            r.sessions() == Map::<Seq<char>, SessionView>::empty(),
    {
        SessionStore { entries: Vec::new() }
    }

    fn find(&self, id: &str) -> (r: Option<usize>)
        ensures
            r matches Some(i) ==> i < self.entries@.len() && self.entries@[i as int].id.0@ == id@,
            r is None ==> forall|j: int| 0 <= j < self.entries@.len() ==> self.entries@[j].id.0@ != id@,
    {
        let mut i: usize = 0;
        while i < self.entries.len()
            invariant
                i <= self.entries@.len(),
                forall|j: int| 0 <= j < i ==> self.entries@[j].id.0@ != id@,
            decreases self.entries@.len() - i,
        {
            if str_eq(self.entries[i].id.0.as_str(), id) {
                return Some(i);
            }
            i = i + 1;
        }
        None
    }

    /// Stores a session; returns whether its id was already present.
    fn put(&mut self, session: Session) -> (existed: bool)
        ensures
            existed == old(self).sessions().contains_key(session.id.0@),
            final(self).sessions() == old(self).sessions().insert(session.id.0@, session@),
    {
        proof {
            use_type_invariant(&*self);
        }
        let found = self.find(session.id.0.as_str());
        let mut v: Vec<Session> = Vec::new();
        std::mem::swap(&mut v, &mut self.entries);
        let ghost s0 = v@;
        match found {
            Some(i) => {
                proof {
                    lemma_map_update(s0, i as int, session);
                    lemma_map_index(s0, i as int);
                }
                v.set(i, session);
                self.entries = v;
                true
            },
            None => {
                proof {
                    lemma_map_absent(s0, session.id.0@);
                    assert((s0.push(session)).drop_last() =~= s0);
                }
                v.push(session);
                self.entries = v;
                false
            },
        }
    }
}

impl Default for SessionStore {
    fn default() -> (r: Self)
        ensures
            r.sessions() == Map::<Seq<char>, SessionView>::empty(),
    {
        SessionStore::new()
    }
}

impl SessionStorePort for SessionStore {
    closed spec fn sessions(&self) -> Map<Seq<char>, SessionView> {
        session_map(self.entries@)
    }

    fn insert(&mut self, session: Session) -> (id: SessionId) {
        let id = session.id.clone();
        self.put(session);
        id
    }

    fn get(&self, id: &SessionId) -> (r: Option<Session>) {
        proof {
            use_type_invariant(self);
        }
        match self.find(id.0.as_str()) {
            Some(i) => {
                proof {
                    lemma_map_index(self.entries@, i as int);
                }
                Some(self.entries[i].clone())
            },
            None => {
                proof {
                    lemma_map_absent(self.entries@, id.0@);
                }
                None
            },
        }
    }

    fn update(&mut self, session: Session) -> (existed: bool) {
        self.put(session)
    }

    fn delete(&mut self, id: &SessionId) -> (existed: bool) {
        proof {
            use_type_invariant(&*self);
        }
        match self.find(id.0.as_str()) {
            Some(i) => {
                let mut v: Vec<Session> = Vec::new();
                std::mem::swap(&mut v, &mut self.entries);
                proof {
                    lemma_map_remove(v@, i as int);
                    lemma_map_index(v@, i as int);
                }
                v.remove(i);
                self.entries = v;
                true
            },
            None => {
                proof {
                    lemma_map_absent(self.entries@, id.0@);
                    assert(session_map(self.entries@).remove(id.0@) =~= session_map(self.entries@));
                }
                false
            },
        }
    }

    fn list_ids(&self) -> (r: Vec<SessionId>) {
        proof {
            use_type_invariant(self);
        }
        let mut r: Vec<SessionId> = Vec::new();
        let mut i: usize = 0;
        while i < self.entries.len()
            invariant
                i <= self.entries@.len(),
                unique_ids(self.entries@),
                r@.len() == i,
                forall|j: int| 0 <= j < i ==> r@[j].0@ == self.entries@[j].id.0@,
            decreases self.entries@.len() - i,
        {
            r.push(self.entries[i].id.clone());
            i = i + 1;
        }
        proof {
            assert forall|j: int| 0 <= j < r@.len() implies session_map(self.entries@).contains_key(
                #[trigger] r@[j].0@,
            ) by {
                lemma_map_index(self.entries@, j);
            }
            assert forall|k: Seq<char>| session_map(self.entries@).contains_key(k) implies exists|j: int|
                0 <= j < r@.len() && r@[j].0@ == k by {
                lemma_map_keys(self.entries@, k);
                let i = choose|i: int| 0 <= i < self.entries@.len() && self.entries@[i].id.0@ == k;
                assert(r@[i].0@ == k);
            }
        }
        r
    }

    fn len(&self) -> (r: usize) {
        proof {
            use_type_invariant(self);
            lemma_map_len(self.entries@);
        }
        self.entries.len()
    }

    fn is_empty(&self) -> (r: bool) {
        proof {
            use_type_invariant(self);
            lemma_map_len(self.entries@);
        }
        self.entries.len() == 0
    }
}

/// What a store gives back of a write: after `insert` (or `update`) of a session,
/// `get` of its id returns that session, and every other id is untouched; after
/// `delete` of an id, `get` of it finds nothing.
pub proof fn law_read_after_write(
    before: Map<Seq<char>, SessionView>,
    after_insert: Map<Seq<char>, SessionView>,
    after_delete: Map<Seq<char>, SessionView>,
    session: Session,
)
    requires
        after_insert == before.insert(session.id.0@, session@),
        after_delete == after_insert.remove(session.id.0@),
    ensures
        after_insert.contains_key(session.id.0@),
        after_insert[session.id.0@] == session@,
        forall|k: Seq<char>|
            k != session.id.0@ ==> after_insert.contains_key(k) == before.contains_key(k) && (
            before.contains_key(k) ==> after_insert[k] == before[k]),
        !after_delete.contains_key(session.id.0@),
        forall|k: Seq<char>|
            k != session.id.0@ ==> after_delete.contains_key(k) == before.contains_key(k) && (
            before.contains_key(k) ==> after_delete[k] == before[k]),
{
}

} // verus!
