use auth_core::boundary::{
    login_cookie, login_error_status, logout_cookie, logout_error_status,
    registration_error_status, screen_session_cookie, verify_error_status, STATUS_CONFLICT,
    STATUS_INTERNAL_SERVER_ERROR, STATUS_UNAUTHORIZED, STATUS_UNPROCESSABLE_ENTITY,
};
use auth_core::constants::{SESSION_EXPIRE_BUFFER_SECONDS, SESSION_ID_LENGTH, USER_ID_HEADER};
use auth_core::domain::{SessionData, XUserId};
use auth_core::registration::UserCreationError;
use auth_core::service::{LoginError, LogoutError, SessionVerifyError};

#[test]
fn cookie_missing_is_unauthorized() {
    assert_eq!(screen_session_cookie(None).err().unwrap(), STATUS_UNAUTHORIZED);
}

#[test]
fn cookie_malformed_is_unprocessable() {
    let short = "a".repeat(10);
    assert_eq!(
        screen_session_cookie(Some(short.as_str())).err().unwrap(),
        STATUS_UNPROCESSABLE_ENTITY
    );
}

#[test]
fn cookie_well_formed_passes_screening() {
    let value = "a".repeat(SESSION_ID_LENGTH);
    let id = screen_session_cookie(Some(value.as_str())).unwrap();
    assert_eq!(id.0, value);
}

#[test]
fn login_cookie_carries_session() {
    let session = SessionData { id: "g".repeat(SESSION_ID_LENGTH), user_id: 7, expires: 123_456 };
    let cookie = login_cookie(&session, true);
    assert_eq!(cookie.value, session.id);
    assert_eq!(cookie.expires, 123_456);
    assert!(cookie.http_only);
    assert!(cookie.secure);
}

#[test]
fn logout_cookie_expires_in_the_past() {
    let cookie = logout_cookie(1_000_000);
    assert_eq!(cookie.value, "");
    assert_eq!(cookie.expires, 1_000_000 - SESSION_EXPIRE_BUFFER_SECONDS);
}

#[test]
fn error_status_mapping() {
    assert_eq!(login_error_status(&LoginError::NoUser), STATUS_UNAUTHORIZED);
    assert_eq!(login_error_status(&LoginError::Unknown), STATUS_INTERNAL_SERVER_ERROR);
    assert_eq!(verify_error_status(&SessionVerifyError::Missing), STATUS_UNAUTHORIZED);
    assert_eq!(verify_error_status(&SessionVerifyError::Unknown), STATUS_INTERNAL_SERVER_ERROR);
    assert_eq!(logout_error_status(&LogoutError::Unknown), STATUS_INTERNAL_SERVER_ERROR);
    assert_eq!(registration_error_status(&UserCreationError::DuplicateEmail), STATUS_CONFLICT);
    assert_eq!(
        registration_error_status(&UserCreationError::Unknown),
        STATUS_INTERNAL_SERVER_ERROR
    );
}

#[test]
fn header_name() {
    assert_eq!(XUserId::name(), USER_ID_HEADER);
    assert_eq!(XUserId::name(), "X-User-Id");
}

#[test]
fn header_decode_accepts_numerals() {
    assert_eq!(XUserId::decode("123").unwrap().0, 123);
    assert_eq!(XUserId::decode("-45").unwrap().0, -45);
    assert_eq!(XUserId::decode("+7").unwrap().0, 7);
    assert_eq!(XUserId::decode("0").unwrap().0, 0);
    assert_eq!(XUserId::decode("0012").unwrap().0, 12);
    assert_eq!(XUserId::decode("2147483647").unwrap().0, i32::MAX);
    assert_eq!(XUserId::decode("-2147483648").unwrap().0, i32::MIN);
}

#[test]
fn header_encode_is_canonical() {
    assert_eq!(XUserId(0).encode(), "0");
    assert_eq!(XUserId(123).encode(), "123");
    assert_eq!(XUserId(-45).encode(), "-45");
    assert_eq!(XUserId(i32::MAX).encode(), "2147483647");
    assert_eq!(XUserId(i32::MIN).encode(), "-2147483648");
}

#[test]
fn header_encode_decode_round_trip() {
    for v in [0, 1, -1, 7, -10, 100, 30_000, -99_999, i32::MAX, i32::MIN] {
        assert_eq!(XUserId::decode(XUserId(v).encode().as_str()).unwrap().0, v);
    }
}

#[test]
fn header_decode_rejects_everything_else() {
    assert!(XUserId::decode("").is_none());
    assert!(XUserId::decode("-").is_none());
    assert!(XUserId::decode("+").is_none());
    assert!(XUserId::decode("12a").is_none());
    assert!(XUserId::decode(" 12").is_none());
    assert!(XUserId::decode("2147483648").is_none());
    assert!(XUserId::decode("-2147483649").is_none());
    assert!(XUserId::decode("99999999999999999999").is_none());
}
