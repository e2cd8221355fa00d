//! The session store: sessions by id, with sliding expiration.

use vstd::prelude::*;
use vstd::set_lib::*;
use crate::clock::{is_clock_reading, unix_now};
use crate::ids::{is_first_vacant, random_id, vacant_id};
use crate::model::{Record, Session, UserType};
use crate::table::{
    lists_entries, table_entries, table_get, table_insert, table_new, table_remove,
    table_snapshot, Table,
};

verus! {

/// How long a session lives after it was created or last read, in seconds.
pub const SESSION_TTL: i64 = 300;

/// How long the sweeper waits between two rounds, in seconds.
pub const SWEEP_INTERVAL_SECS: u64 = 60;

/// The session that is created at `now` under `id`.
pub open spec fn opened(id: u128, user_id: u128, user_type: UserType, now: i64) -> Session {
    Session { session_id: id, user_id, user_type, expiration: (now + SESSION_TTL) as i64 }
}

/// The session `s` after a read at `now`.
pub open spec fn renewed(s: Session, now: i64) -> Session {
    Session { expiration: (now + SESSION_TTL) as i64, ..s }
}

/// Whether the session `s` is past its expiration at `now`.
pub open spec fn is_expired(s: Session, now: i64) -> bool {
    s.expiration < now
}

/// The ids of the sessions that are past their expiration at `now`.
pub open spec fn expired_ids(sessions: Map<u128, Session>, now: i64) -> Set<u128> {
    Set::new(|k: u128| sessions.contains_key(k) && is_expired(sessions[k], now))
}

/// The sessions that are left after a sweep at `now`.
pub open spec fn swept(sessions: Map<u128, Session>, now: i64) -> Map<u128, Session> {
    sessions.remove_keys(expired_ids(sessions, now))
}

/// Whether a read of `id` at `now` finds a session: one is stored under
/// `id`, and it is not past its expiration. A session that is past its
/// expiration is gone for every read, though it stays in the store until a
/// sweep removes it.
pub open spec fn is_live(sessions: Map<u128, Session>, id: u128, now: i64) -> bool {
    sessions.contains_key(id) && !is_expired(sessions[id], now)
}

/// What a read of `id` at `now` returns: the session as renewed, where it is
/// live.
pub open spec fn found_at(sessions: Map<u128, Session>, id: u128, now: i64) -> Option<Session> {
    if is_live(sessions, id, now) {
        Some(renewed(sessions[id], now))
    } else {
        None
    }
}

/// The sessions after a read of `id` at `now`: a live session is renewed, and
/// nothing else changes.
pub open spec fn read_at(
    sessions: Map<u128, Session>,
    id: u128,
    now: i64,
) -> Map<u128, Session> {
    if is_live(sessions, id, now) {
        sessions.insert(id, renewed(sessions[id], now))
    } else {
        sessions
    }
}

/// Whether `sessions` can be what a store holds: finitely many sessions, each
/// one filed under its own id.
pub open spec fn sessions_filed_by_id(sessions: Map<u128, Session>) -> bool {
    &&& sessions.dom().finite()
    &&& forall|id: u128| #[trigger]
        sessions.contains_key(id) ==> sessions[id].session_id == id
}

/// Sessions by id. Every session is filed under its own id. A session is
/// live until its expiration has passed; after that no read finds it or
/// renews it, and a sweep removes it.
pub struct SessionStore {
    sessions: Table,
}

/// Whether every entry is a session filed under its own id.
spec fn holds_sessions(entries: Map<u128, Record>) -> bool {
    &&& entries.dom().finite()
    &&& forall|k: u128| #[trigger]
        entries.contains_key(k) ==> entries[k] is Session && entries[k]->Session_0.session_id
            == k
}

spec fn sessions_in(entries: Map<u128, Record>) -> Map<u128, Session> {
    Map::new(|k: u128| entries.contains_key(k), |k: u128| entries[k]->Session_0)
}

impl SessionStore {
    #[verifier::type_invariant]
    spec fn inv(&self) -> bool {
        holds_sessions(table_entries(self.sessions))
    }

    /// The sessions, by id.
    pub closed spec fn sessions(&self) -> Map<u128, Session> {
        if holds_sessions(table_entries(self.sessions)) {
            sessions_in(table_entries(self.sessions))
        } else {
            Map::empty()
        }
    }

    /// A store holds finitely many sessions, and each one under its own id.
    pub proof fn lemma_sessions_filed_by_id(&self)
        ensures
            sessions_filed_by_id(self.sessions()),
    {
        if holds_sessions(table_entries(self.sessions)) {
            assert(self.sessions().dom() =~= table_entries(self.sessions).dom());
        }
    }

    /// A store without sessions.
    pub fn new() -> (store: SessionStore)
        ensures
            forall|id: u128| !store.sessions().contains_key(id),
    {
        SessionStore { sessions: table_new() }
    }

    /// Creates a session for the user at `now`, under the first id from
    /// `candidate` on that no session has. Returns that id and the instant at
    /// which the session expires.
    pub fn create_session_at(
        &mut self,
        candidate: u128,
        user_id: u128,
        user_type: UserType,
        now: i64,
    ) -> (created: (u128, i64))
        requires
            now + SESSION_TTL <= i64::MAX,
        ensures
            is_first_vacant(old(self).sessions().dom(), candidate, created.0),
            !old(self).sessions().contains_key(created.0),
            created.1 == now + SESSION_TTL,
            final(self).sessions() == old(self).sessions().insert(
                created.0,
                opened(created.0, user_id, user_type, now),
            ),
    {
        proof {
            use_type_invariant(&*self);
            assert(self.sessions().dom() =~= table_entries(self.sessions).dom());
        }
        let id: u128 = vacant_id(&self.sessions, candidate);
        let expiration: i64 = now + SESSION_TTL;
        let session = Session { session_id: id, user_id, user_type, expiration };
        table_insert(&mut self.sessions, id, Record::Session(session));
        proof {
            assert(self.sessions() =~= old(self).sessions().insert(
                id,
                opened(id, user_id, user_type, now),
            ));
        }
        (id, expiration)
    }

    /// Creates a session for the user at the time the clock gives, under an id
    /// that no session has. Returns that id and the instant at which the
    /// session expires.
    pub fn create_session(&mut self, user_id: u128, user_type: UserType) -> (created: (u128, i64))
        ensures
            !old(self).sessions().contains_key(created.0),
            is_clock_reading((created.1 - SESSION_TTL) as i64),
            final(self).sessions() == old(self).sessions().insert(
                created.0,
                (Session { session_id: created.0, user_id, user_type, expiration: created.1 }),
            ),
    {
        let now: i64 = unix_now();
        let candidate: u128 = random_id();
        self.create_session_at(candidate, user_id, user_type, now)
    }

    /// Reads the session `id` at `now`. A session that is there and not past
    /// its expiration is renewed: from now on it expires `SESSION_TTL` seconds
    /// after `now`, and it is returned as renewed. A read of an id that is not
    /// there, or of a session that is past its expiration, finds nothing and
    /// changes nothing: the expired session is left for the sweep.
    pub fn get_session_at(&mut self, id: u128, now: i64) -> (found: Option<Session>)
        requires
            now + SESSION_TTL <= i64::MAX,
        ensures
            final(self).sessions() == read_at(old(self).sessions(), id, now),
            found == found_at(old(self).sessions(), id, now),
            found matches Some(session) ==> session.session_id == id,
    {
        proof {
            use_type_invariant(&*self);
        }
        match table_get(&self.sessions, id) {
            Some(Record::Session(stored)) => {
                if stored.expiration < now {
                    None
                } else {
                    let session = Session {
                        session_id: stored.session_id,
                        user_id: stored.user_id,
                        user_type: stored.user_type,
                        expiration: now + SESSION_TTL,
                    };
                    table_insert(&mut self.sessions, id, Record::Session(session));
                    proof {
                        assert(self.sessions() =~= read_at(old(self).sessions(), id, now));
                    }
                    Some(session)
                }
            },
            _ => None,
        }
    }

    /// Reads the session `id` at the time the clock gives: renews and returns
    /// it if it is there and not past its expiration, and otherwise finds
    /// nothing and changes nothing.
    pub fn get_session(&mut self, id: u128) -> (found: Option<Session>)
        ensures
            exists|now: i64|
                is_clock_reading(now) && final(self).sessions() == read_at(
                    old(self).sessions(),
                    id,
                    now,
                ) && found == found_at(old(self).sessions(), id, now),
            found matches Some(session) ==> session.session_id == id,
            found is None ==> final(self).sessions() == old(self).sessions(),
            found is Some ==> old(self).sessions().contains_key(id),
    {
        let now: i64 = unix_now();
        self.get_session_at(id, now)
    }

    /// Removes the session `id`. Where there is none, nothing changes.
    pub fn delete_session(&mut self, id: u128)
        ensures
            final(self).sessions() == old(self).sessions().remove(id),
    {
        proof {
            use_type_invariant(&*self);
        }
        table_remove(&mut self.sessions, id);
        proof {
            assert(self.sessions() =~= old(self).sessions().remove(id));
        }
    }

    /// Removes every session that is past its expiration at `now`, and
    /// returns how many it removed.
    pub fn sweep_expired(&mut self, now: i64) -> (removed: usize)
        ensures
            final(self).sessions() == swept(old(self).sessions(), now),
            removed == expired_ids(old(self).sessions(), now).len(),
    {
        proof {
            use_type_invariant(&*self);
        }
        let all = table_snapshot(&self.sessions);
        let ghost before = table_entries(self.sessions);
        let ghost mut gone: Set<u128> = Set::empty();
        let mut removed: usize = 0;
        let mut i: usize = 0;
        while i < all.len()
            invariant
                i <= all.len(),
                removed <= i,
                lists_entries(all@, before),
                holds_sessions(before),
                gone.finite(),
                gone.len() == removed,
                table_entries(self.sessions) == before.remove_keys(gone),
                forall|j: int|
                    0 <= j < i && is_expired((#[trigger] all[j]).1->Session_0, now)
                        ==> gone.contains(all[j].0),
                forall|k: u128| #[trigger]
                    gone.contains(k) ==> before.contains_key(k) && is_expired(
                        before[k]->Session_0,
                        now,
                    ),
                forall|j: int| i <= j < all.len() ==> !gone.contains((#[trigger] all[j]).0),
            decreases all.len() - i,
        {
            proof {
                use_type_invariant(&*self);
                assert(before.contains_key(all[i as int].0));
            }
            if let Record::Session(session) = &all[i].1 {
                if session.expiration < now {
                    table_remove(&mut self.sessions, session.session_id);
                    removed = removed + 1;
                    proof {
                        assert(table_entries(self.sessions) =~= before.remove_keys(
                            gone.insert(session.session_id),
                        ));
                        gone = gone.insert(session.session_id);
                    }
                }
            }
            i = i + 1;
        }
        proof {
            use_type_invariant(&*self);
            assert forall|k: u128|
                before.contains_key(k) && is_expired(
                    before[k]->Session_0,
                    now,
                ) implies gone.contains(k) by {
                let j: int = choose|j: int| 0 <= j < all.len() && #[trigger] all[j].0 == k;
                assert(all[j].1 == before[k]);
            }
            assert(gone =~= expired_ids(old(self).sessions(), now));
            assert(self.sessions() =~= swept(old(self).sessions(), now));
        }
        removed
    }

    /// One round of the sweeper: removes every session that is past its
    /// expiration at the time the clock gives, and returns how many it
    /// removed.
    pub fn cleanup_sessions(&mut self) -> (removed: usize)
        ensures
            exists|now: i64|
                is_clock_reading(now) && final(self).sessions() == swept(
                    old(self).sessions(),
                    now,
                ) && removed == expired_ids(old(self).sessions(), now).len(),
    {
        let now: i64 = unix_now();
        self.sweep_expired(now)
    }
}

} // verus!
