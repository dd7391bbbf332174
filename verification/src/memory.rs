//! In-memory implementations of the two storage ports, proved against
//! the port contracts. They back the test suite and double as the
//! reference semantics for any remote implementation.

use vstd::prelude::*;
use crate::domain::{Session, SessionData, SessionInfo, User, UserData, UserView};
use crate::repository::{
    SessionDeleteError, SessionGetError, SessionInsertError, SessionRepository, UserGetError,
    UserInsertError, UserRepository,
};
use crate::text::str_eq;

verus! {

/// The map a list of session records stands for. A later record with
/// the same identifier would win, though the store never keeps two
/// records under one identifier.
spec fn session_map_of(records: Seq<SessionData>) -> Map<Seq<char>, SessionInfo>
    decreases records.len(),
{
    if records.len() == 0 {
        Map::empty()
    } else {
        session_map_of(records.drop_last()).insert(records.last().id@, records.last().info())
    }
}

proof fn lemma_session_map_contains(records: Seq<SessionData>, key: Seq<char>)
    ensures
        session_map_of(records).contains_key(key) <==> exists|i: int|
            0 <= i < records.len() && records[i].id@ == key,
    decreases records.len(),
{
    if records.len() > 0 {
        let dl = records.drop_last();
        lemma_session_map_contains(dl, key);
        if records.last().id@ == key {
            assert(records[records.len() - 1].id@ == key);
        } else {
            if session_map_of(records).contains_key(key) {
                let i = choose|i: int| 0 <= i < dl.len() && dl[i].id@ == key;
                assert(records[i].id@ == key);
            }
            if exists|i: int| 0 <= i < records.len() && records[i].id@ == key {
                let i = choose|i: int| 0 <= i < records.len() && records[i].id@ == key;
                assert(i < records.len() - 1);
                assert(dl[i].id@ == key);
            }
        }
    }
}

proof fn lemma_session_map_found(records: Seq<SessionData>, key: Seq<char>, i: int)
    requires
        0 <= i < records.len(),
        records[i].id@ == key,
        forall|j: int| i < j < records.len() ==> records[j].id@ != key,
    ensures
        session_map_of(records).contains_key(key),
        session_map_of(records)[key] == records[i].info(),
    decreases records.len(),
{
    if i == records.len() - 1 {
    } else {
        let dl = records.drop_last();
        assert(dl[i].id@ == key);
        lemma_session_map_found(dl, key, i);
    }
}

/// The records left after removing every record stored under `key`.
spec fn without_session_id(records: Seq<SessionData>, key: Seq<char>) -> Seq<SessionData>
    decreases records.len(),
{
    if records.len() == 0 {
        Seq::empty()
    } else if records.last().id@ == key {
        without_session_id(records.drop_last(), key)
    } else {
        without_session_id(records.drop_last(), key).push(records.last())
    }
}

proof fn lemma_without_session_id_map(records: Seq<SessionData>, key: Seq<char>)
    ensures
        session_map_of(without_session_id(records, key)) == session_map_of(records).remove(key),
    decreases records.len(),
{
    if records.len() == 0 {
        assert(session_map_of(records).remove(key) =~= Map::<Seq<char>, SessionInfo>::empty());
    } else {
        let dl = records.drop_last();
        let last = records.last();
        lemma_without_session_id_map(dl, key);
        let m = session_map_of(dl);
        if last.id@ == key {
            assert(session_map_of(records).remove(key) =~= m.remove(key));
        } else {
            let w = without_session_id(dl, key).push(last);
            assert(w.drop_last() =~= without_session_id(dl, key));
            assert(session_map_of(w) == session_map_of(without_session_id(dl, key)).insert(
                last.id@,
                last.info(),
            ));
            assert(session_map_of(records).remove(key) =~= m.remove(key).insert(
                last.id@,
                last.info(),
            ));
        }
    }
}

/// A session store held in a plain vector, for tests and development.
pub struct InMemorySessionRepository {
    records: Vec<SessionData>,
    delete_calls: Ghost<nat>,
}

impl InMemorySessionRepository {
    /// An empty store with no delete calls issued yet.
    pub fn new() -> (r: Self)
        ensures
            r.sessions() == Map::<Seq<char>, SessionInfo>::empty(),
            r.deletes() == 0,
    {
        InMemorySessionRepository { records: Vec::new(), delete_calls: Ghost(0) }
    }
}

impl SessionRepository for InMemorySessionRepository {
    closed spec fn sessions(&self) -> Map<Seq<char>, SessionInfo> {
        session_map_of(self.records@)
    }

    closed spec fn deletes(&self) -> nat {
        self.delete_calls@
    }

    fn insert(&mut self, session_data: &SessionData) -> (r: Result<(), SessionInsertError>)
        ensures
            r is Ok <==> !old(self).sessions().contains_key(session_data.id@),
            r is Err ==> (r matches Err(e) && e == SessionInsertError::Duplicate),
    {
        let n = self.records.len();
        let mut i: usize = 0;
        while i < n
            invariant
                n == self.records@.len(),
                i <= n,
                forall|j: int| 0 <= j < i ==> self.records@[j].id@ != session_data.id@,
            decreases n - i,
        {
            if str_eq(self.records[i].id.as_str(), session_data.id.as_str()) {
                proof {
                    assert(self.records@[i as int].id@ == session_data.id@);
                    lemma_session_map_contains(self.records@, session_data.id@);
                }
                return Err(SessionInsertError::Duplicate);
            }
            i = i + 1;
        }
        proof {
            lemma_session_map_contains(self.records@, session_data.id@);
        }
        let ghost before = self.records@;
        let record = SessionData {
            id: session_data.id.clone(),
            user_id: session_data.user_id,
            expires: session_data.expires,
        };
        self.records.push(record);
        proof {
            assert(self.records@.drop_last() =~= before);
        }
        Ok(())
    }

    fn get(&self, id: &str) -> (r: Result<Session, SessionGetError>)
        ensures
            r is Ok <==> self.sessions().contains_key(id@),
    {
        let n = self.records.len();
        let mut i: usize = n;
        while i > 0
            invariant
                n == self.records@.len(),
                i <= n,
                forall|j: int| i <= j < n ==> self.records@[j].id@ != id@,
            decreases i,
        {
            i = i - 1;
            let record = &self.records[i];
            if str_eq(record.id.as_str(), id) {
                proof {
                    lemma_session_map_found(self.records@, id@, i as int);
                }
                return Ok(
                    Session {
                        id: record.id.clone(),
                        user: User {
                            id: record.user_id,
                            email: String::new(),
                            password_hash: String::new(),
                        },
                        expires: record.expires,
                    },
                );
            }
        }
        proof {
            lemma_session_map_contains(self.records@, id@);
        }
        Err(SessionGetError::Missing)
    }

    fn delete(&mut self, id: &str) -> (r: Result<(), SessionDeleteError>)
        ensures
            r is Ok,
    {
        let n = self.records.len();
        let mut kept: Vec<SessionData> = Vec::new();
        let mut i: usize = 0;
        while i < n
            invariant
                n == self.records@.len(),
                i <= n,
                kept@ == without_session_id(self.records@.subrange(0, i as int), id@),
            decreases n - i,
        {
            let record = &self.records[i];
            proof {
                assert(self.records@.subrange(0, i as int + 1).drop_last() =~= self
                    .records@.subrange(0, i as int));
                assert(self.records@.subrange(0, i as int + 1).last() == self.records@[i as int]);
            }
            if !str_eq(record.id.as_str(), id) {
                kept.push(
                    SessionData {
                        id: record.id.clone(),
                        user_id: record.user_id,
                        expires: record.expires,
                    },
                );
                proof {
                    assert(kept@.drop_last() =~= without_session_id(
                        self.records@.subrange(0, i as int),
                        id@,
                    ));
                    assert(kept@ =~= without_session_id(
                        self.records@.subrange(0, i as int + 1),
                        id@,
                    ));
                }
            }
            i = i + 1;
        }
        proof {
            assert(self.records@.subrange(0, n as int) =~= self.records@);
            lemma_without_session_id_map(self.records@, id@);
        }
        self.records = kept;
        self.delete_calls = Ghost(self.delete_calls@ + 1);
        Ok(())
    }
}

/// The map a list of accounts stands for, keyed by email.
spec fn user_map_of(accounts: Seq<User>) -> Map<Seq<char>, UserView>
    decreases accounts.len(),
{
    if accounts.len() == 0 {
        Map::empty()
    } else {
        user_map_of(accounts.drop_last()).insert(accounts.last().email@, accounts.last()@)
    }
}

proof fn lemma_user_map_contains(accounts: Seq<User>, key: Seq<char>)
    ensures
        user_map_of(accounts).contains_key(key) <==> exists|i: int|
            0 <= i < accounts.len() && accounts[i].email@ == key,
    decreases accounts.len(),
{
    if accounts.len() > 0 {
        let dl = accounts.drop_last();
        lemma_user_map_contains(dl, key);
        if accounts.last().email@ == key {
            assert(accounts[accounts.len() - 1].email@ == key);
        } else {
            if user_map_of(accounts).contains_key(key) {
                let i = choose|i: int| 0 <= i < dl.len() && dl[i].email@ == key;
                assert(accounts[i].email@ == key);
            }
            if exists|i: int| 0 <= i < accounts.len() && accounts[i].email@ == key {
                let i = choose|i: int| 0 <= i < accounts.len() && accounts[i].email@ == key;
                assert(i < accounts.len() - 1);
                assert(dl[i].email@ == key);
            }
        }
    }
}

proof fn lemma_user_map_found(accounts: Seq<User>, key: Seq<char>, i: int)
    requires
        0 <= i < accounts.len(),
        accounts[i].email@ == key,
        forall|j: int| i < j < accounts.len() ==> accounts[j].email@ != key,
    ensures
        user_map_of(accounts).contains_key(key),
        user_map_of(accounts)[key] == accounts[i]@,
    decreases accounts.len(),
{
    if i == accounts.len() - 1 {
    } else {
        let dl = accounts.drop_last();
        assert(dl[i].email@ == key);
        lemma_user_map_found(dl, key, i);
    }
}

/// A user store held in a plain vector, for tests and development.
/// Identifiers are handed out in insertion order.
pub struct InMemoryUserRepository {
    accounts: Vec<User>,
    next_id: i32,
}

impl InMemoryUserRepository {
    /// An empty store.
    pub fn new() -> (r: Self)
        ensures
            r.users() == Map::<Seq<char>, UserView>::empty(),
    {
        InMemoryUserRepository { accounts: Vec::new(), next_id: 1 }
    }
}

impl UserRepository for InMemoryUserRepository {
    closed spec fn users(&self) -> Map<Seq<char>, UserView> {
        user_map_of(self.accounts@)
    }

    fn get_by_email(&self, email: &str) -> (r: Result<User, UserGetError>)
        ensures
            r is Ok <==> self.users().contains_key(email@),
    {
        let n = self.accounts.len();
        let mut i: usize = n;
        while i > 0
            invariant
                n == self.accounts@.len(),
                i <= n,
                forall|j: int| i <= j < n ==> self.accounts@[j].email@ != email@,
            decreases i,
        {
            i = i - 1;
            let account = &self.accounts[i];
            if str_eq(account.email.as_str(), email) {
                proof {
                    lemma_user_map_found(self.accounts@, email@, i as int);
                }
                return Ok(
                    User {
                        id: account.id,
                        email: account.email.clone(),
                        password_hash: account.password_hash.clone(),
                    },
                );
            }
        }
        proof {
            lemma_user_map_contains(self.accounts@, email@);
        }
        Err(UserGetError::Missing)
    }

    fn insert(&mut self, user_data: UserData) -> (r: Result<(), UserInsertError>)
        ensures
            r is Err ==> final(self).users() == old(self).users(),
            r matches Err(e) ==> (e == UserInsertError::Duplicate) == old(
                self,
            ).users().contains_key(user_data.email@),
    {
        let n = self.accounts.len();
        let mut i: usize = 0;
        while i < n
            invariant
                n == self.accounts@.len(),
                i <= n,
                forall|j: int| 0 <= j < i ==> self.accounts@[j].email@ != user_data.email@,
            decreases n - i,
        {
            if str_eq(self.accounts[i].email.as_str(), user_data.email.as_str()) {
                proof {
                    assert(self.accounts@[i as int].email@ == user_data.email@);
                    lemma_user_map_contains(self.accounts@, user_data.email@);
                }
                return Err(UserInsertError::Duplicate);
            }
            i = i + 1;
        }
        proof {
            lemma_user_map_contains(self.accounts@, user_data.email@);
        }
        if self.next_id == i32::MAX {
            return Err(UserInsertError::Unknown);
        }
        let ghost before = self.accounts@;
        let account = User {
            id: self.next_id,
            email: user_data.email,
            password_hash: user_data.password_hash,
        };
        self.accounts.push(account);
        self.next_id = self.next_id + 1;
        proof {
            assert(self.accounts@.drop_last() =~= before);
        }
        Ok(())
    }
}

} // verus!
