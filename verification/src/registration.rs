//! User registration: hash the chosen password, insert the account,
//! and surface a duplicate email as its own business outcome.
//!
//! Credential validation happens strictly before registration runs and
//! is reported per field; see `Credentials::validate`.

use vstd::prelude::*;
use crate::domain::{Credentials, UserData, UserView};
use crate::hashing::HashService;
use crate::repository::{UserInsertError, UserRepository};

verus! {

#[derive(Debug, Clone, Copy, PartialEq, Eq, Structural)]
pub enum UserCreationError {
    DuplicateEmail,
    Unknown,
}

/// The registration flow over a user store and a hashing service.
#[derive(Debug, Clone)]
pub struct HashUserService<U, H> where U: UserRepository, H: HashService {
    user_repository: U,
    hash_service: H,
}

impl<U, H> HashUserService<U, H> where U: UserRepository, H: HashService {
    /// The accounts the underlying user store holds.
    pub closed spec fn users(&self) -> Map<Seq<char>, UserView> {
        self.user_repository.users()
    }

    /// The hashing service new passwords are digested with.
    pub closed spec fn hasher(&self) -> H {
        self.hash_service
    }

    /// Whether this service's hashing accepts the plaintext against
    /// the digest.
    pub open spec fn hash_ok(&self, plaintext: Seq<char>, digest: Seq<char>) -> bool {
        self.hasher().digest_matches(plaintext, digest)
    }

    pub fn new(user_repository: U, hash_service: H) -> (r: Self)
        ensures
            r.users() == user_repository.users(),
            r.hasher() == hash_service,
    {
        Self { user_repository, hash_service }
    }

    /// Registration: on success the store has gained exactly one
    /// account, under a previously unused email, whose stored digest
    /// accepts the chosen password. An already used email is reported
    /// as `DuplicateEmail` and changes nothing.
    pub fn register(&mut self, credentials: Credentials) -> (r: Result<(), UserCreationError>)
        ensures
            final(self).hasher() == old(self).hasher(),
            final(self).users() == old(self).users() || (
                final(self).users().contains_key(credentials.email@)
                && final(self).users()[credentials.email@].email == credentials.email@
                && old(self).hash_ok(
                    credentials.password@,
                    final(self).users()[credentials.email@].password_hash,
                )
                && final(self).users() == old(self).users().insert(
                    credentials.email@,
                    final(self).users()[credentials.email@],
                )
            ),
            r is Ok ==> !old(self).users().contains_key(credentials.email@)
                && final(self).users().contains_key(credentials.email@)
                && final(self).users()[credentials.email@].email == credentials.email@
                && old(self).hash_ok(
                    credentials.password@,
                    final(self).users()[credentials.email@].password_hash,
                )
                && final(self).users() == old(self).users().insert(
                    credentials.email@,
                    final(self).users()[credentials.email@],
                ),
            r matches Err(e) && e == UserCreationError::DuplicateEmail ==> old(
                self,
            ).users().contains_key(credentials.email@) && final(self).users() == old(self).users(),
    {
        let password_hash = match self.hash_service.hash(credentials.password.as_str()) {
            Ok(digest) => digest,
            Err(_) => {
                return Err(UserCreationError::Unknown);
            },
        };
        let user_data = UserData { email: credentials.email, password_hash };
        match self.user_repository.insert(user_data) {
            Ok(()) => Ok(()),
            Err(UserInsertError::Duplicate) => Err(UserCreationError::DuplicateEmail),
            Err(UserInsertError::Unknown) => Err(UserCreationError::Unknown),
        }
    }
}

} // verus!
