//! Domain data: users, credentials, and sessions, together with the
//! mathematical views that contracts are stated over.

use vstd::prelude::*;

verus! {

/// Abstract view of a stored user account.
pub ghost struct UserView {
    pub id: int,
    pub email: Seq<char>,
    pub password_hash: Seq<char>,
}

/// A stored user account: the unique key is the email address; the
/// password is kept only as a one-way digest.
#[derive(Debug, Clone, PartialEq)]
pub struct User {
    pub id: i32,
    pub email: String,
    pub password_hash: String,
}

impl View for User {
    type V = UserView;

    open spec fn view(&self) -> UserView {
        UserView { id: self.id as int, email: self.email@, password_hash: self.password_hash@ }
    }
}

/// Abstract view of a pair of credentials.
pub ghost struct CredentialsView {
    pub email: Seq<char>,
    pub password: Seq<char>,
}

/// Transient login or registration input; never persisted.
#[derive(Debug, Clone, PartialEq)]
pub struct Credentials {
    pub email: String,
    pub password: String,
}

impl View for Credentials {
    type V = CredentialsView;

    open spec fn view(&self) -> CredentialsView {
        CredentialsView { email: self.email@, password: self.password@ }
    }
}

/// A new account as handed to the user repository: the email together
/// with the digest of the chosen password.
#[derive(Debug, Clone, PartialEq)]
pub struct UserData {
    pub email: String,
    pub password_hash: String,
}

/// Abstract view of a live session: which user it belongs to and when
/// it stops being valid.
pub ghost struct SessionInfo {
    pub user_id: int,
    pub expires: int,
}

/// A session as the engine creates it: the opaque token, the owning
/// user, and the expiry as a unix timestamp in seconds.
#[derive(Debug, Clone, PartialEq)]
pub struct SessionData {
    pub id: String,
    pub user_id: i32,
    pub expires: i64,
}

impl SessionData {
    /// The abstract session this record stands for.
    pub open spec fn info(&self) -> SessionInfo {
        SessionInfo { user_id: self.user_id as int, expires: self.expires as int }
    }
}

/// A session as the session repository returns it, joined with the
/// owning user.
#[derive(Debug, Clone, PartialEq)]
pub struct Session {
    pub id: String,
    pub user: User,
    pub expires: i64,
}

/// A session identifier exactly as a client presented it, not yet
/// checked against the wire-form rules.
#[derive(Debug, Clone, PartialEq)]
pub struct SessionId(pub String);

/// A verified user identifier as carried by the trusted identity header.
#[derive(Debug, Clone, Copy, PartialEq, Eq, Structural)]
pub struct XUserId(pub i32);

} // verus!
