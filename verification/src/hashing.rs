//! One-way password hashing port, and its bcrypt-backed implementation.

use vstd::prelude::*;
use crate::constants::DEFAULT_HASH_COST;

verus! {

/// A malformed digest or an internal failure of the hashing library.
/// Verification never reveals more than the boolean result, so the two
/// are not distinguished.
#[derive(Debug, Clone, Copy, PartialEq, Eq, Structural)]
pub enum HashError {
    Unknown,
}

/// One-way password hashing: a deliberately slow, salted digest with a
/// configurable work factor.
pub trait HashService: Sized {
    /// Whether this service accepts the plaintext against the digest.
    /// An implementation outside the library inherits the default,
    /// about which nothing is known.
    open spec fn digest_matches(&self, plaintext: Seq<char>, digest: Seq<char>) -> bool {
        arbitrary()
    }

    fn hash(&self, plaintext: &str) -> (r: Result<String, HashError>)
        ensures
            r matches Ok(d) ==> self.digest_matches(plaintext@, d@),
    ;

    fn verify(&self, plaintext: &str, digest: &str) -> (r: Result<bool, HashError>)
        ensures
            r matches Ok(b) ==> b == self.digest_matches(plaintext@, digest@),
    ;
}

/// Whether bcrypt accepts the plaintext against the digest. The salt
/// and the work factor are read back out of the digest itself, so this
/// is a function of the pair alone.
pub uninterp spec fn bcrypt_accepts(plaintext: Seq<char>, digest: Seq<char>) -> bool;

/// Whether bcrypt can read the digest back at all: the `$`-separated
/// shape, prefix, cost field and range, and the base64 salt and hash.
/// A function of the digest string alone.
pub uninterp spec fn bcrypt_digest_parses(digest: Seq<char>) -> bool;

/// Relies on bcrypt::verify: recomputes the digest with the cost and
/// salt carried inside `digest` and compares; deterministic in the
/// pair of arguments. Every failure path — shape, prefix, cost field,
/// cost range, salt length, base64 — depends on the digest alone, so
/// it fails exactly on a digest it cannot read back.
#[verifier::external_body]
fn bcrypt_verify(plaintext: &str, digest: &str) -> (r: Result<bool, HashError>)
    ensures
        r matches Ok(b) ==> b == bcrypt_accepts(plaintext@, digest@),
        r is Err <==> !bcrypt_digest_parses(digest@),
{
    match bcrypt::verify(plaintext, digest) {
        Ok(b) => Ok(b),
        Err(_) => Err(HashError::Unknown),
    }
}

/// Relies on bcrypt::hash: a freshly salted digest at the given cost,
/// which bcrypt::verify reads back and accepts against the plaintext
/// it was made from.
#[verifier::external_body]
fn bcrypt_hash(plaintext: &str, cost: u32) -> (r: Result<String, HashError>)
    ensures
        r matches Ok(d) ==> bcrypt_accepts(plaintext@, d@) && bcrypt_digest_parses(d@),
{
    match bcrypt::hash(plaintext, cost) {
        Ok(d) => Ok(d),
        Err(_) => Err(HashError::Unknown),
    }
}

/// The hashing port backed by bcrypt, with a fixed work factor chosen
/// at construction.
#[derive(Debug, Clone)]
pub struct BcryptHashService {
    cost: u32,
}

impl BcryptHashService {
    /// The work factor applied to all new digests.
    pub closed spec fn spec_cost(&self) -> u32 {
        self.cost
    }

    /// A service with the default work factor.
    pub fn new() -> (r: Self)
        ensures
            r.spec_cost() == DEFAULT_HASH_COST,
    {
        BcryptHashService { cost: DEFAULT_HASH_COST }
    }

    /// A service with an explicit work factor; outside bcrypt's
    /// accepted range every hash call reports `Unknown`.
    pub fn with_cost(cost: u32) -> (r: Self)
        ensures
            r.spec_cost() == cost,
    {
        BcryptHashService { cost }
    }
}

impl HashService for BcryptHashService {
    closed spec fn digest_matches(&self, plaintext: Seq<char>, digest: Seq<char>) -> bool {
        bcrypt_accepts(plaintext, digest)
    }

    fn hash(&self, plaintext: &str) -> (r: Result<String, HashError>)
        ensures
            r matches Ok(d) ==> bcrypt_digest_parses(d@),
    {
        bcrypt_hash(plaintext, self.cost)
    }

    fn verify(&self, plaintext: &str, digest: &str) -> (r: Result<bool, HashError>)
        ensures
            r is Err <==> !bcrypt_digest_parses(digest@),
    {
        bcrypt_verify(plaintext, digest)
    }
}

} // verus!
