//! Identity boundary decisions: cookie screening and issuance, status
//! mapping, and the trusted identity header.
//!
//! The transport layer only moves bytes; which cookie to set, which
//! status to answer, and what the trusted header carries is decided
//! here. The trusted header is written only by this boundary and must
//! never be accepted from an external client.

use vstd::prelude::*;
use crate::constants::{SESSION_EXPIRE_BUFFER_SECONDS, USER_ID_HEADER};
use crate::domain::{SessionData, SessionId, XUserId};
use crate::registration::UserCreationError;
use crate::service::{LoginError, LogoutError, SessionVerifyError};
use crate::text::{dec_digits_of, format_i32, parse_i32, parsed_i32};
use crate::validation::valid_session_id;

verus! {

pub const STATUS_OK: u16 = 200;

pub const STATUS_CREATED: u16 = 201;

pub const STATUS_UNAUTHORIZED: u16 = 401;

pub const STATUS_CONFLICT: u16 = 409;

pub const STATUS_UNPROCESSABLE_ENTITY: u16 = 422;

pub const STATUS_INTERNAL_SERVER_ERROR: u16 = 500;

/// Screens the session cookie before any engine or storage call: no
/// cookie is unauthorized; a malformed value is unprocessable — a
/// distinct status, since malformed input is not the same as a
/// well-formed token that proves nothing.
pub fn screen_session_cookie(cookie: Option<&str>) -> (r: Result<SessionId, u16>)
    ensures
        cookie is None ==> (r matches Err(s) && s == STATUS_UNAUTHORIZED),
        cookie matches Some(v) ==> (!valid_session_id(v@) ==> (r matches Err(s) && s
            == STATUS_UNPROCESSABLE_ENTITY)),
        cookie matches Some(v) ==> (valid_session_id(v@) ==> (r matches Ok(sid) && sid.0@ == v@)),
{
    match cookie {
        None => Err(STATUS_UNAUTHORIZED),
        Some(value) => {
            let id = SessionId(String::from_str(value));
            match id.validate() {
                Ok(()) => Ok(id),
                Err(_) => Err(STATUS_UNPROCESSABLE_ENTITY),
            }
        },
    }
}

/// What the boundary asks the transport to set as a cookie.
#[derive(Debug, Clone, PartialEq)]
pub struct CookiePlan {
    pub value: String,
    pub expires: i64,
    pub http_only: bool,
    pub secure: bool,
}

/// The cookie set on a successful login: it carries the session
/// identifier, expires together with the session, and is kept from
/// scripts; `secure` follows whether the deployment is TLS-terminated.
pub fn login_cookie(session: &SessionData, secure: bool) -> (c: CookiePlan)
    ensures
        c.value@ == session.id@,
        c.expires == session.expires,
        c.http_only,
        c.secure == secure,
{
    CookiePlan {
        value: session.id.clone(),
        expires: session.expires,
        http_only: true,
        secure,
    }
}

/// The cookie set on logout: empty, with an expiration safely in the
/// past so the client discards it at once.
pub fn logout_cookie(now: i64) -> (c: CookiePlan)
    ensures
        c.value@ == Seq::<char>::empty(),
        c.expires as int == if now >= i64::MIN + SESSION_EXPIRE_BUFFER_SECONDS {
            now - SESSION_EXPIRE_BUFFER_SECONDS
        } else {
            i64::MIN as int
        },
        !c.http_only,
        !c.secure,
{
    let expires = if now >= i64::MIN + SESSION_EXPIRE_BUFFER_SECONDS {
        now - SESSION_EXPIRE_BUFFER_SECONDS
    } else {
        i64::MIN
    };
    CookiePlan { value: String::new(), expires, http_only: false, secure: false }
}

/// Bad credentials are unauthorized; an infrastructure fault is a
/// server error.
pub fn login_error_status(e: &LoginError) -> (s: u16)
    ensures
        e is NoUser ==> s == STATUS_UNAUTHORIZED,
        e is Unknown ==> s == STATUS_INTERNAL_SERVER_ERROR,
{
    match e {
        LoginError::NoUser => STATUS_UNAUTHORIZED,
        LoginError::Unknown => STATUS_INTERNAL_SERVER_ERROR,
    }
}

/// A missing (or expired) session is unauthorized; an infrastructure
/// fault is a server error.
pub fn verify_error_status(e: &SessionVerifyError) -> (s: u16)
    ensures
        e is Missing ==> s == STATUS_UNAUTHORIZED,
        e is Unknown ==> s == STATUS_INTERNAL_SERVER_ERROR,
{
    match e {
        SessionVerifyError::Missing => STATUS_UNAUTHORIZED,
        SessionVerifyError::Unknown => STATUS_INTERNAL_SERVER_ERROR,
    }
}

pub fn logout_error_status(e: &LogoutError) -> (s: u16)
    ensures
        s == STATUS_INTERNAL_SERVER_ERROR,
{
    match e {
        LogoutError::Unknown => STATUS_INTERNAL_SERVER_ERROR,
    }
}

/// A duplicate email is a conflict; an infrastructure fault is a
/// server error.
pub fn registration_error_status(e: &UserCreationError) -> (s: u16)
    ensures
        e is DuplicateEmail ==> s == STATUS_CONFLICT,
        e is Unknown ==> s == STATUS_INTERNAL_SERVER_ERROR,
{
    match e {
        UserCreationError::DuplicateEmail => STATUS_CONFLICT,
        UserCreationError::Unknown => STATUS_INTERNAL_SERVER_ERROR,
    }
}

impl XUserId {
    /// The name of the trusted identity header.
    pub fn name() -> (r: &'static str)
        ensures
            r@ == USER_ID_HEADER@,
    {
        USER_ID_HEADER
    }

    /// Writes the identifier as the value of the trusted header: the
    /// canonical decimal numeral, which `decode` reads back to exactly
    /// this identifier.
    pub fn encode(&self) -> (r: String)
        ensures
            r@ == if self.0 < 0 {
                seq!['-'] + dec_digits_of(-(self.0 as int))
            } else {
                dec_digits_of(self.0 as int)
            },
            parsed_i32(r@) == Some(self.0 as int),
    {
        format_i32(self.0)
    }

    /// Reads a header value back into a verified user identifier:
    /// exactly the signed decimal numerals within the 32-bit range are
    /// accepted.
    pub fn decode(value: &str) -> (r: Option<XUserId>)
        ensures
            r is Some <==> parsed_i32(value@) is Some,
            r matches Some(x) ==> parsed_i32(value@) == Some(x.0 as int),
    {
        match parse_i32(value) {
            Some(v) => Some(XUserId(v)),
            None => None,
        }
    }
}

} // verus!
