//! The session engine: login, verification, and logout, written
//! against the repository and hashing ports.
//!
//! A session is *absent*, then *live* once login creates it, then
//! *expired* once time passes its expiry, and *absent* again once it
//! is deleted. There is no background sweep: expiry is detected lazily
//! when a session is verified.

use vstd::prelude::*;
use rand::Rng;
use crate::constants::{
    SESSION_ID_LENGTH, SESSION_LENGTH_SECONDS, TIMESTAMP_MAX, TIMESTAMP_MIN,
};
use crate::domain::{Credentials, SessionData, SessionInfo, User, UserView};
use crate::hashing::HashService;
use crate::repository::{
    SessionDeleteError, SessionGetError, SessionInsertError, SessionRepository, UserGetError,
    UserRepository,
};
use crate::validation::{is_alphanumeric_char, valid_session_id};

verus! {

/// Login fails the same way for an unknown email and for a wrong
/// password, so a caller cannot probe which emails exist.
#[derive(Debug, Clone, Copy, PartialEq, Eq, Structural)]
pub enum LoginError {
    NoUser,
    Unknown,
}

/// An expired session is indistinguishable from an absent one by
/// design: both are `Missing`.
#[derive(Debug, Clone, Copy, PartialEq, Eq, Structural)]
pub enum SessionVerifyError {
    Missing,
    Unknown,
}

#[derive(Debug, Clone, Copy, PartialEq, Eq, Structural)]
pub enum LogoutError {
    Unknown,
}

/// A timestamp a calendar datetime can represent; anything else is a
/// corrupt expiry.
pub open spec fn timestamp_in_range(t: int) -> bool {
    TIMESTAMP_MIN as int <= t <= TIMESTAMP_MAX as int
}

/// A stored session is live while its expiry is well formed and still
/// in the future; otherwise it must be treated as absent.
pub open spec fn session_live(info: SessionInfo, now: int) -> bool {
    timestamp_in_range(info.expires) && info.expires > now
}

/// The engine seen from the identity boundary.
pub trait SessionService: Sized {
    fn login(&mut self, credentials: Credentials) -> (r: Result<SessionData, LoginError>)
        ensures
            r matches Ok(s) ==> valid_session_id(s.id@),
    ;

    fn verify(&mut self, id: &str) -> (r: Result<User, SessionVerifyError>);
}

/// Relies on chrono::Utc::now: the current clock reading as unix
/// seconds, which always lies within the representable datetime range.
#[verifier::external_body]
fn now_timestamp() -> (r: i64)
    ensures
        TIMESTAMP_MIN <= r <= TIMESTAMP_MAX,
{
    chrono::Utc::now().timestamp()
}

/// Relies on rand's thread_rng with the Alphanumeric distribution:
/// every sampled character is an ASCII letter or digit.
#[verifier::external_body]
fn random_alphanumeric(len: usize) -> (r: String)
    ensures
        r@.len() == len,
        forall|i: int| 0 <= i < r@.len() ==> is_alphanumeric_char(#[trigger] r@[i]),
{
    rand::thread_rng()
        .sample_iter(&rand::distributions::Alphanumeric)
        .take(len)
        .map(char::from)
        .collect()
}

/// The session engine over a session store, a user store, and a
/// hashing service.
#[derive(Debug, Clone)]
pub struct HashSessionService<S, U, H> where
    S: SessionRepository,
    U: UserRepository,
    H: HashService,
{
    session_repository: S,
    user_repository: U,
    hash_service: H,
    max_retries: u32,
}

impl<S, U, H> HashSessionService<S, U, H> where
    S: SessionRepository,
    U: UserRepository,
    H: HashService,
{
    /// The sessions the underlying store holds.
    pub closed spec fn sessions(&self) -> Map<Seq<char>, SessionInfo> {
        self.session_repository.sessions()
    }

    /// How many delete calls the engine has issued against the store.
    pub closed spec fn deletes(&self) -> nat {
        self.session_repository.deletes()
    }

    /// The accounts the underlying user store holds.
    pub closed spec fn users(&self) -> Map<Seq<char>, UserView> {
        self.user_repository.users()
    }

    /// The hashing service the engine verifies passwords with.
    pub closed spec fn hasher(&self) -> H {
        self.hash_service
    }

    /// Whether the engine's hashing service accepts the plaintext
    /// against the digest.
    pub open spec fn hash_ok(&self, plaintext: Seq<char>, digest: Seq<char>) -> bool {
        self.hasher().digest_matches(plaintext, digest)
    }

    /// The retry budget for colliding session identifiers.
    pub closed spec fn retries(&self) -> u32 {
        self.max_retries
    }

    pub fn new(session_repository: S, user_repository: U, hash_service: H, max_retries: u32) -> (r:
        Self)
        ensures
            r.sessions() == session_repository.sessions(),
            r.deletes() == session_repository.deletes(),
            r.users() == user_repository.users(),
            r.hasher() == hash_service,
            r.retries() == max_retries,
    {
        Self { session_repository, user_repository, hash_service, max_retries }
    }

    /// A fresh candidate session identifier: cryptographically random,
    /// of exactly the requested length, alphanumeric throughout.
    pub fn generate_session_id(id_len: usize) -> (r: String)
        ensures
            r@.len() == id_len,
            forall|i: int| 0 <= i < r@.len() ==> is_alphanumeric_char(#[trigger] r@[i]),
            id_len == SESSION_ID_LENGTH ==> valid_session_id(r@),
    {
        random_alphanumeric(id_len)
    }

    /// Login at a given clock reading.
    ///
    /// On success the returned record belongs to the account stored
    /// under the email, its password digest accepts the password, the
    /// record expires exactly the configured session length after
    /// `now`, and the store has gained exactly that record under a
    /// previously unused identifier. `NoUser` never reveals whether
    /// the email existed or the password merely mismatched.
    #[verifier::loop_isolation(false)]
    pub fn login_at(&mut self, credentials: Credentials, now: i64) -> (r: Result<
        SessionData,
        LoginError,
    >)
        requires
            now + SESSION_LENGTH_SECONDS <= i64::MAX,
        ensures
            final(self).users() == old(self).users(),
            final(self).hasher() == old(self).hasher(),
            final(self).retries() == old(self).retries(),
            final(self).deletes() == old(self).deletes(),
            r matches Ok(s) ==> old(self).users().contains_key(credentials.email@),
            r matches Ok(s) ==> old(self).hash_ok(
                credentials.password@,
                old(self).users()[credentials.email@].password_hash,
            ),
            r matches Ok(s) ==> s.user_id as int == old(self).users()[credentials.email@].id,
            r matches Ok(s) ==> s.expires == now + SESSION_LENGTH_SECONDS,
            r matches Ok(s) ==> valid_session_id(s.id@),
            r matches Ok(s) ==> !old(self).sessions().contains_key(s.id@),
            r matches Ok(s) ==> final(self).sessions() == old(self).sessions().insert(s.id@, s.info()),
            r matches Err(e) && e == LoginError::NoUser ==> final(self).sessions() == old(self).sessions()
                && (!old(self).users().contains_key(credentials.email@)
                    || !old(self).hash_ok(credentials.password@, old(self).users()[credentials.email@].password_hash)),
            old(self).retries() == 0 && old(self).users().contains_key(credentials.email@)
                && old(self).hash_ok(credentials.password@, old(self).users()[credentials.email@].password_hash)
                ==> (r matches Err(e) && e == LoginError::Unknown),
            old(self).retries() == 0 ==> final(self).sessions() == old(self).sessions(),
            final(self).sessions() == old(self).sessions() || (exists|id: Seq<char>|
                valid_session_id(id) && final(self).sessions() == old(self).sessions().insert(
                    id,
                    SessionInfo {
                        user_id: old(self).users()[credentials.email@].id,
                        expires: now + SESSION_LENGTH_SECONDS,
                    },
                )),
    {
        let user = match self.user_repository.get_by_email(credentials.email.as_str()) {
            Ok(user) => user,
            Err(UserGetError::Missing) => {
                return Err(LoginError::NoUser);
            },
            Err(UserGetError::Unknown) => {
                return Err(LoginError::Unknown);
            },
        };
        match self.hash_service.verify(
            credentials.password.as_str(),
            user.password_hash.as_str(),
        ) {
            Err(_) => {
                return Err(LoginError::Unknown);
            },
            Ok(false) => {
                return Err(LoginError::NoUser);
            },
            Ok(true) => {},
        }
        let mut retry: u32 = 0;
        while retry < self.max_retries
            invariant
                self.user_repository == old(self).user_repository,
                self.hash_service == old(self).hash_service,
                self.max_retries == old(self).max_retries,
                self.sessions() == old(self).sessions(),
                self.deletes() == old(self).deletes(),
                user@ == old(self).users()[credentials.email@],
                old(self).users().contains_key(credentials.email@),
            decreases self.max_retries - retry,
        {
            let id = Self::generate_session_id(SESSION_ID_LENGTH);
            let session_data = SessionData { id, user_id: user.id, expires: now
                + SESSION_LENGTH_SECONDS };
            match self.session_repository.insert(&session_data) {
                Ok(()) => {
                    proof {
                        assert(valid_session_id(session_data.id@) && self.sessions() == old(
                            self,
                        ).sessions().insert(
                            session_data.id@,
                            SessionInfo {
                                user_id: old(self).users()[credentials.email@].id,
                                expires: now + SESSION_LENGTH_SECONDS,
                            },
                        ));
                    }
                    return Ok(session_data);
                },
                Err(SessionInsertError::Duplicate) => {},
                Err(SessionInsertError::Unknown) => {
                    proof {
                        if self.sessions() != old(self).sessions() {
                            assert(valid_session_id(session_data.id@) && self.sessions() == old(
                                self,
                            ).sessions().insert(
                                session_data.id@,
                                SessionInfo {
                                    user_id: old(self).users()[credentials.email@].id,
                                    expires: now + SESSION_LENGTH_SECONDS,
                                },
                            ));
                        }
                    }
                    return Err(LoginError::Unknown);
                },
            }
            retry = retry + 1;
        }
        Err(LoginError::Unknown)
    }

    /// Verification at a given clock reading.
    ///
    /// A stored, live session yields its user and changes nothing. An
    /// absent session is `Missing`. A stored session that is no longer
    /// live is deleted — exactly one delete call — and reported
    /// `Missing`, indistinguishable from an absent one, unless the
    /// delete itself fails at the transport, which is `Unknown`.
    pub fn verify_at(&mut self, id: &str, now: i64) -> (r: Result<User, SessionVerifyError>)
        ensures
            final(self).users() == old(self).users(),
            final(self).hasher() == old(self).hasher(),
            final(self).retries() == old(self).retries(),
            old(self).deletes() <= final(self).deletes() <= old(self).deletes() + 1,
            final(self).sessions() == old(self).sessions() || final(self).sessions() == old(
                self,
            ).sessions().remove(id@),
            !old(self).sessions().contains_key(id@) ==> final(self).sessions() == old(
                self,
            ).sessions() && final(self).deletes() == old(self).deletes(),
            r matches Ok(u) ==> old(self).sessions().contains_key(id@)
                && session_live(old(self).sessions()[id@], now as int)
                && u.id as int == old(self).sessions()[id@].user_id
                && final(self).sessions() == old(self).sessions()
                && final(self).deletes() == old(self).deletes(),
            r matches Err(e) && e == SessionVerifyError::Missing ==> (
                !old(self).sessions().contains_key(id@)
                && final(self).sessions() == old(self).sessions()
                && final(self).deletes() == old(self).deletes()
            ) || (
                old(self).sessions().contains_key(id@)
                && !session_live(old(self).sessions()[id@], now as int)
                && final(self).sessions() == old(self).sessions().remove(id@)
                && final(self).deletes() == old(self).deletes() + 1
            ),
    {
        let session = match self.session_repository.get(id) {
            Ok(session) => session,
            Err(SessionGetError::Missing) => {
                return Err(SessionVerifyError::Missing);
            },
            Err(SessionGetError::Unknown) => {
                return Err(SessionVerifyError::Unknown);
            },
        };
        let corrupt = !(TIMESTAMP_MIN <= session.expires && session.expires <= TIMESTAMP_MAX);
        if corrupt || session.expires <= now {
            return match self.session_repository.delete(id) {
                Ok(()) => Err(SessionVerifyError::Missing),
                Err(SessionDeleteError::Unknown) => Err(SessionVerifyError::Unknown),
            };
        }
        Ok(session.user)
    }

    /// Logout: one delete call against the store. Deletion is
    /// idempotent, so logging out an already absent session succeeds
    /// as well.
    pub fn logout(&mut self, id: &str) -> (r: Result<(), LogoutError>)
        ensures
            final(self).users() == old(self).users(),
            final(self).hasher() == old(self).hasher(),
            final(self).retries() == old(self).retries(),
            final(self).deletes() == old(self).deletes() + 1,
            r is Ok ==> final(self).sessions() == old(self).sessions().remove(id@),
    {
        match self.session_repository.delete(id) {
            Ok(()) => Ok(()),
            Err(SessionDeleteError::Unknown) => Err(LogoutError::Unknown),
        }
    }
}

impl<S, U, H> SessionService for HashSessionService<S, U, H> where
    S: SessionRepository,
    U: UserRepository,
    H: HashService,
{
    /// Login at the current clock reading: everything `login_at`
    /// promises except the exact clock value, whose reading stays
    /// within the representable range, so the expiry is bounded by
    /// that range shifted by the session length.
    fn login(&mut self, credentials: Credentials) -> (r: Result<SessionData, LoginError>)
        ensures
            final(self).users() == old(self).users(),
            final(self).hasher() == old(self).hasher(),
            final(self).retries() == old(self).retries(),
            final(self).deletes() == old(self).deletes(),
            r matches Ok(s) ==> old(self).users().contains_key(credentials.email@),
            r matches Ok(s) ==> old(self).hash_ok(
                credentials.password@,
                old(self).users()[credentials.email@].password_hash,
            ),
            r matches Ok(s) ==> s.user_id as int == old(self).users()[credentials.email@].id,
            r matches Ok(s) ==> TIMESTAMP_MIN as int + SESSION_LENGTH_SECONDS as int <= s.expires
                as int <= TIMESTAMP_MAX as int + SESSION_LENGTH_SECONDS as int,
            r matches Ok(s) ==> valid_session_id(s.id@),
            r matches Ok(s) ==> !old(self).sessions().contains_key(s.id@),
            r matches Ok(s) ==> final(self).sessions() == old(self).sessions().insert(
                s.id@,
                s.info(),
            ),
            r matches Err(e) && e == LoginError::NoUser ==> final(self).sessions() == old(
                self,
            ).sessions() && (!old(self).users().contains_key(credentials.email@) || !old(
                self,
            ).hash_ok(credentials.password@, old(self).users()[credentials.email@].password_hash)),
            old(self).retries() == 0 && old(self).users().contains_key(credentials.email@) && old(
                self,
            ).hash_ok(credentials.password@, old(self).users()[credentials.email@].password_hash)
                ==> (r matches Err(e) && e == LoginError::Unknown),
            old(self).retries() == 0 ==> final(self).sessions() == old(self).sessions(),
            final(self).sessions() == old(self).sessions() || (exists|id: Seq<char>|
                valid_session_id(id) && final(self).sessions() == old(self).sessions().insert(
                    id,
                    final(self).sessions()[id],
                )),
    {
        let now = now_timestamp();
        let r = self.login_at(credentials, now);
        proof {
            if self.sessions() != old(self).sessions() {
                let id = choose|id: Seq<char>|
                    valid_session_id(id) && self.sessions() == old(self).sessions().insert(
                        id,
                        SessionInfo {
                            user_id: old(self).users()[credentials.email@].id,
                            expires: now + SESSION_LENGTH_SECONDS,
                        },
                    );
                assert(valid_session_id(id) && self.sessions() == old(self).sessions().insert(
                    id,
                    self.sessions()[id],
                ));
            }
        }
        r
    }

    /// Verification at the current clock reading: everything
    /// `verify_at` promises except the exact clock value.
    fn verify(&mut self, id: &str) -> (r: Result<User, SessionVerifyError>)
        ensures
            final(self).users() == old(self).users(),
            final(self).hasher() == old(self).hasher(),
            final(self).retries() == old(self).retries(),
            old(self).deletes() <= final(self).deletes() <= old(self).deletes() + 1,
            final(self).sessions() == old(self).sessions() || final(self).sessions() == old(
                self,
            ).sessions().remove(id@),
            !old(self).sessions().contains_key(id@) ==> final(self).sessions() == old(
                self,
            ).sessions() && final(self).deletes() == old(self).deletes(),
            r matches Ok(u) ==> old(self).sessions().contains_key(id@)
                && u.id as int == old(self).sessions()[id@].user_id
                && final(self).sessions() == old(self).sessions()
                && final(self).deletes() == old(self).deletes(),
            r matches Err(e) && e == SessionVerifyError::Missing ==> (
                !old(self).sessions().contains_key(id@)
                && final(self).sessions() == old(self).sessions()
                && final(self).deletes() == old(self).deletes()
            ) || (
                old(self).sessions().contains_key(id@)
                && final(self).sessions() == old(self).sessions().remove(id@)
                && final(self).deletes() == old(self).deletes() + 1
            ),
    {
        let now = now_timestamp();
        self.verify_at(id, now)
    }
}

/// Logout is idempotent: removing a session identifier a second time
/// leaves the store exactly as the first removal left it, so a
/// repeated logout succeeds with no further effect.
pub proof fn lemma_logout_idempotent(sessions: Map<Seq<char>, SessionInfo>, id: Seq<char>)
    ensures
        sessions.remove(id).remove(id) == sessions.remove(id),
{
    assert(sessions.remove(id).remove(id) =~= sessions.remove(id));
}

} // verus!
