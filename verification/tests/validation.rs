use auth_core::domain::{Credentials, SessionId};
use auth_core::validation::{PasswordIssue, SessionIdIssue};

fn creds(email: &str, password: &str) -> Credentials {
    Credentials { email: String::from(email), password: String::from(password) }
}

#[test]
fn password_good_example() {
    let r = creds("user@example.com", "Abcdef1!").validate();
    assert!(r.is_ok());
}

#[test]
fn password_all_missing_classes() {
    let r = creds("user@example.com", "abcdefgh").validate();
    let issues = r.err().unwrap();
    assert!(!issues.email_invalid);
    assert_eq!(
        issues.password,
        vec![
            PasswordIssue::MissingUppercase,
            PasswordIssue::MissingDigit,
            PasswordIssue::MissingSpecial
        ]
    );
}

#[test]
fn password_too_short() {
    let r = creds("user@example.com", "Ab1!").validate();
    let issues = r.err().unwrap();
    assert_eq!(issues.password, vec![PasswordIssue::Length]);
}

#[test]
fn password_too_long() {
    let r = creds("user@example.com", "Aa1!Aa1!Aa1!Aa1!Aa1!Aa1!Aa1!Aa1!X").validate();
    let issues = r.err().unwrap();
    assert_eq!(issues.password, vec![PasswordIssue::Length]);
}

#[test]
fn password_bad_charset() {
    let r = creds("user@example.com", "Abcdef1?").validate();
    let issues = r.err().unwrap();
    assert_eq!(issues.password, vec![PasswordIssue::Charset, PasswordIssue::MissingSpecial]);
}

#[test]
fn email_rejected() {
    let r = creds("not-an-email", "Abcdef1!").validate();
    let issues = r.err().unwrap();
    assert!(issues.email_invalid);
    assert!(issues.password.is_empty());
}

#[test]
fn email_empty_rejected() {
    let r = creds("", "Abcdef1!").validate();
    assert!(r.err().unwrap().email_invalid);
}

#[test]
fn session_id_ok() {
    let id = SessionId("a".repeat(64));
    assert!(id.validate().is_ok());
}

#[test]
fn session_id_wrong_length() {
    let id = SessionId("a".repeat(10));
    assert_eq!(id.validate().err().unwrap(), vec![SessionIdIssue::Length]);
}

#[test]
fn session_id_bad_charset() {
    let mut value = "a".repeat(63);
    value.push('-');
    let id = SessionId(value);
    assert_eq!(id.validate().err().unwrap(), vec![SessionIdIssue::Charset]);
}

#[test]
fn session_id_both_issues() {
    let id = SessionId(String::from("short-"));
    assert_eq!(
        id.validate().err().unwrap(),
        vec![SessionIdIssue::Length, SessionIdIssue::Charset]
    );
}
