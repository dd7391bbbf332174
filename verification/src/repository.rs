//! Storage ports. The engine is written against these two contracts
//! alone; a deployment plugs in a remote resource-management client or
//! a relational store, and tests plug in the in-memory stores.
//!
//! "Missing" and "Duplicate" are business outcomes; "Unknown" is a
//! transport or storage fault, about which nothing further is promised.

use vstd::prelude::*;
use crate::domain::{Session, SessionData, SessionInfo, User, UserData, UserView};

verus! {

#[derive(Debug, Clone, Copy, PartialEq, Eq, Structural)]
pub enum UserGetError {
    Missing,
    Unknown,
}

#[derive(Debug, Clone, Copy, PartialEq, Eq, Structural)]
pub enum UserInsertError {
    Duplicate,
    Unknown,
}

#[derive(Debug, Clone, Copy, PartialEq, Eq, Structural)]
pub enum SessionGetError {
    Missing,
    Unknown,
}

#[derive(Debug, Clone, Copy, PartialEq, Eq, Structural)]
pub enum SessionDeleteError {
    Unknown,
}

#[derive(Debug, Clone, Copy, PartialEq, Eq, Structural)]
pub enum SessionInsertError {
    Duplicate,
    Unknown,
}

/// Persistence for user accounts, modelled as a map from email to the
/// stored account.
pub trait UserRepository: Sized {
    /// The accounts the store holds, keyed by email. An implementation
    /// outside the library inherits the default, about which nothing is
    /// known.
    open spec fn users(&self) -> Map<Seq<char>, UserView> {
        arbitrary()
    }

    fn get_by_email(&self, email: &str) -> (r: Result<User, UserGetError>)
        ensures
            r matches Ok(u) ==> self.users().contains_key(email@)
                && u@ == self.users()[email@] && u@.email == email@,
            r matches Err(e) && e == UserGetError::Missing ==> !self.users().contains_key(email@),
    ;

    fn insert(&mut self, user_data: UserData) -> (r: Result<(), UserInsertError>)
        ensures
            r is Ok ==> !old(self).users().contains_key(user_data.email@)
                && final(self).users().contains_key(user_data.email@)
                && final(self).users()[user_data.email@].email == user_data.email@
                && final(self).users()[user_data.email@].password_hash == user_data.password_hash@
                && final(self).users() == old(self).users().insert(
                    user_data.email@,
                    final(self).users()[user_data.email@],
                ),
            r matches Err(e) && e == UserInsertError::Duplicate ==> old(self).users().contains_key(
                user_data.email@,
            ) && final(self).users() == old(self).users(),
            r is Err ==> final(self).users() == old(self).users() || (
                final(self).users().contains_key(user_data.email@)
                && final(self).users()[user_data.email@].email == user_data.email@
                && final(self).users()[user_data.email@].password_hash == user_data.password_hash@
                && final(self).users() == old(self).users().insert(
                    user_data.email@,
                    final(self).users()[user_data.email@],
                )
            ),
    ;
}

/// Persistence for sessions, modelled as a map from session identifier
/// to the abstract session, together with a count of the delete calls
/// issued so far.
///
/// Insertion is the single atomic point of truth for identifier
/// uniqueness: it succeeds only on an identifier the store did not
/// hold. Deletion is idempotent; deleting an absent identifier is not
/// an error.
pub trait SessionRepository: Sized {
    /// The live records the store holds, keyed by session identifier.
    /// An implementation outside the library inherits the default,
    /// about which nothing is known.
    open spec fn sessions(&self) -> Map<Seq<char>, SessionInfo> {
        arbitrary()
    }

    /// How many delete calls have been issued against this store.
    open spec fn deletes(&self) -> nat {
        arbitrary()
    }

    fn insert(&mut self, session_data: &SessionData) -> (r: Result<(), SessionInsertError>)
        ensures
            final(self).deletes() == old(self).deletes(),
            r is Ok ==> !old(self).sessions().contains_key(session_data.id@)
                && final(self).sessions() == old(self).sessions().insert(
                    session_data.id@,
                    session_data.info(),
                ),
            r matches Err(e) && e == SessionInsertError::Duplicate ==> final(self).sessions()
                == old(self).sessions(),
            r is Err ==> final(self).sessions() == old(self).sessions() || final(self).sessions()
                == old(self).sessions().insert(session_data.id@, session_data.info()),
    ;

    fn get(&self, id: &str) -> (r: Result<Session, SessionGetError>)
        ensures
            r matches Ok(s) ==> self.sessions().contains_key(id@)
                && s.id@ == id@
                && s.user.id as int == self.sessions()[id@].user_id
                && s.expires as int == self.sessions()[id@].expires,
            r matches Err(e) && e == SessionGetError::Missing ==> !self.sessions().contains_key(
                id@,
            ),
    ;

    fn delete(&mut self, id: &str) -> (r: Result<(), SessionDeleteError>)
        ensures
            final(self).deletes() == old(self).deletes() + 1,
            r is Ok ==> final(self).sessions() == old(self).sessions().remove(id@),
            final(self).sessions() == old(self).sessions() || final(self).sessions() == old(
                self,
            ).sessions().remove(id@),
    ;
}

} // verus!
