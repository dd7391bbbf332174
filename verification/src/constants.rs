//! Configuration defaults. Deployments may override these at the process
//! boundary; inside the library they are fixed, immutable values.

use vstd::prelude::*;

verus! {

/// Special characters a password may (and must, at least once) contain.
pub const PASSWORD_SPECIAL_CHARS: &'static str = "!@#$%^&*";

/// Shortest acceptable password, in characters.
pub const PASSWORD_MIN_LENGTH: usize = 8;

/// Longest acceptable password, in characters.
pub const PASSWORD_MAX_LENGTH: usize = 32;

/// Exact length of a session identifier, in characters.
pub const SESSION_ID_LENGTH: usize = 64;

/// How long a fresh session stays live, in seconds (30 days).
pub const SESSION_LENGTH_SECONDS: i64 = 60 * 60 * 24 * 30;

/// How many times login retries a colliding session identifier
/// before giving up.
pub const SESSION_ID_GEN_RETRIES: u32 = 5;

/// How far in the past a logout sets the cookie expiration, in seconds
/// (one day), so that clients discard the cookie immediately.
pub const SESSION_EXPIRE_BUFFER_SECONDS: i64 = 60 * 60 * 24;

/// Name of the cookie that carries the session identifier.
pub const SESSION_COOKIE_NAME: &'static str = "RSESSID";

/// Name of the trusted header that carries the verified user identifier
/// to downstream services. Only the identity boundary may write it.
pub const USER_ID_HEADER: &'static str = "X-User-Id";

/// Default work factor for new password digests.
pub const DEFAULT_HASH_COST: u32 = 12;

/// Smallest unix timestamp, in seconds, that a calendar datetime can
/// represent downstream; an expiry outside this range is corrupt.
pub const TIMESTAMP_MIN: i64 = -8_334_601_228_800;

/// Largest unix timestamp, in seconds, that a calendar datetime can
/// represent downstream; an expiry outside this range is corrupt.
pub const TIMESTAMP_MAX: i64 = 8_210_266_876_799;

} // verus!
