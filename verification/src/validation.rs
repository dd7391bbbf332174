//! Well-formedness rules for credentials and session identifiers.
//!
//! Every rule violation is collected, not short-circuited, so a caller
//! can report all failing rules at once.

use vstd::prelude::*;
use crate::constants::{PASSWORD_MAX_LENGTH, PASSWORD_MIN_LENGTH, SESSION_ID_LENGTH};
use crate::domain::{Credentials, SessionId};

verus! {

/// An ASCII letter or digit.
pub open spec fn is_alphanumeric_char(c: char) -> bool {
    ('0' <= c && c <= '9') || ('a' <= c && c <= 'z') || ('A' <= c && c <= 'Z')
}

pub open spec fn is_uppercase_char(c: char) -> bool {
    'A' <= c && c <= 'Z'
}

pub open spec fn is_lowercase_char(c: char) -> bool {
    'a' <= c && c <= 'z'
}

pub open spec fn is_digit_char(c: char) -> bool {
    '0' <= c && c <= '9'
}

/// One of the special characters a password may contain.
pub open spec fn is_special_char(c: char) -> bool {
    c == '!' || c == '@' || c == '#' || c == '$' || c == '%' || c == '^' || c == '&' || c == '*'
}

/// A character a password may be composed of.
pub open spec fn is_password_char(c: char) -> bool {
    is_alphanumeric_char(c) || is_special_char(c)
}

/// A well-formed password: length within bounds, composed only of
/// letters, digits and the special set, and containing at least one
/// uppercase letter, lowercase letter, digit, and special character.
pub open spec fn password_well_formed(p: Seq<char>) -> bool {
    &&& PASSWORD_MIN_LENGTH <= p.len() <= PASSWORD_MAX_LENGTH
    &&& forall|i: int| 0 <= i < p.len() ==> is_password_char(#[trigger] p[i])
    &&& exists|i: int| 0 <= i < p.len() && is_uppercase_char(#[trigger] p[i])
    &&& exists|i: int| 0 <= i < p.len() && is_lowercase_char(#[trigger] p[i])
    &&& exists|i: int| 0 <= i < p.len() && is_digit_char(#[trigger] p[i])
    &&& exists|i: int| 0 <= i < p.len() && is_special_char(#[trigger] p[i])
}

/// A well-formed session identifier on the wire: exactly the configured
/// length, drawn from ASCII letters and digits only.
pub open spec fn valid_session_id(s: Seq<char>) -> bool {
    &&& s.len() == SESSION_ID_LENGTH
    &&& forall|i: int| 0 <= i < s.len() ==> is_alphanumeric_char(#[trigger] s[i])
}

/// One failing password rule.
#[derive(Debug, Clone, Copy, PartialEq, Eq, Structural)]
pub enum PasswordIssue {
    /// Shorter or longer than the allowed range.
    Length,
    /// Contains a character outside letters, digits and the special set.
    Charset,
    MissingUppercase,
    MissingLowercase,
    MissingDigit,
    MissingSpecial,
}

/// The full list of rules the password breaks, in a fixed order.
pub open spec fn password_issues(p: Seq<char>) -> Seq<PasswordIssue> {
    (if !(PASSWORD_MIN_LENGTH <= p.len() <= PASSWORD_MAX_LENGTH) {
        seq![PasswordIssue::Length]
    } else {
        Seq::empty()
    }) + (if !(forall|i: int| 0 <= i < p.len() ==> is_password_char(#[trigger] p[i])) {
        seq![PasswordIssue::Charset]
    } else {
        Seq::empty()
    }) + (if !(exists|i: int| 0 <= i < p.len() && is_uppercase_char(#[trigger] p[i])) {
        seq![PasswordIssue::MissingUppercase]
    } else {
        Seq::empty()
    }) + (if !(exists|i: int| 0 <= i < p.len() && is_lowercase_char(#[trigger] p[i])) {
        seq![PasswordIssue::MissingLowercase]
    } else {
        Seq::empty()
    }) + (if !(exists|i: int| 0 <= i < p.len() && is_digit_char(#[trigger] p[i])) {
        seq![PasswordIssue::MissingDigit]
    } else {
        Seq::empty()
    }) + (if !(exists|i: int| 0 <= i < p.len() && is_special_char(#[trigger] p[i])) {
        seq![PasswordIssue::MissingSpecial]
    } else {
        Seq::empty()
    })
}

fn contains_uppercase(password: &str) -> (r: bool)
    ensures
        r == exists|i: int| 0 <= i < password@.len() && is_uppercase_char(#[trigger] password@[i]),
{
    let len = password.unicode_len();
    let mut i: usize = 0;
    while i < len
        invariant
            len == password@.len(),
            i <= len,
            forall|j: int| 0 <= j < i ==> !is_uppercase_char(#[trigger] password@[j]),
        decreases len - i,
    {
        let c = password.get_char(i);
        if 'A' <= c && c <= 'Z' {
            return true;
        }
        i = i + 1;
    }
    false
}

fn contains_lowercase(password: &str) -> (r: bool)
    ensures
        r == exists|i: int| 0 <= i < password@.len() && is_lowercase_char(#[trigger] password@[i]),
{
    let len = password.unicode_len();
    let mut i: usize = 0;
    while i < len
        invariant
            len == password@.len(),
            i <= len,
            forall|j: int| 0 <= j < i ==> !is_lowercase_char(#[trigger] password@[j]),
        decreases len - i,
    {
        let c = password.get_char(i);
        if 'a' <= c && c <= 'z' {
            return true;
        }
        i = i + 1;
    }
    false
}

fn contains_digit(password: &str) -> (r: bool)
    ensures
        r == exists|i: int| 0 <= i < password@.len() && is_digit_char(#[trigger] password@[i]),
{
    let len = password.unicode_len();
    let mut i: usize = 0;
    while i < len
        invariant
            len == password@.len(),
            i <= len,
            forall|j: int| 0 <= j < i ==> !is_digit_char(#[trigger] password@[j]),
        decreases len - i,
    {
        let c = password.get_char(i);
        if '0' <= c && c <= '9' {
            return true;
        }
        i = i + 1;
    }
    false
}

fn contains_special(password: &str) -> (r: bool)
    ensures
        r == exists|i: int| 0 <= i < password@.len() && is_special_char(#[trigger] password@[i]),
{
    let len = password.unicode_len();
    let mut i: usize = 0;
    while i < len
        invariant
            len == password@.len(),
            i <= len,
            forall|j: int| 0 <= j < i ==> !is_special_char(#[trigger] password@[j]),
        decreases len - i,
    {
        let c = password.get_char(i);
        if c == '!' || c == '@' || c == '#' || c == '$' || c == '%' || c == '^' || c == '&'
            || c == '*' {
            return true;
        }
        i = i + 1;
    }
    false
}

fn all_password_chars(password: &str) -> (r: bool)
    ensures
        r == forall|i: int| 0 <= i < password@.len() ==> is_password_char(#[trigger] password@[i]),
{
    let len = password.unicode_len();
    let mut i: usize = 0;
    while i < len
        invariant
            len == password@.len(),
            i <= len,
            forall|j: int| 0 <= j < i ==> is_password_char(#[trigger] password@[j]),
        decreases len - i,
    {
        let c = password.get_char(i);
        let alnum = ('0' <= c && c <= '9') || ('a' <= c && c <= 'z') || ('A' <= c && c <= 'Z');
        let special = c == '!' || c == '@' || c == '#' || c == '$' || c == '%' || c == '^'
            || c == '&' || c == '*';
        if !(alnum || special) {
            return false;
        }
        i = i + 1;
    }
    true
}

/// Every rule the password breaks, in the order of `password_issues`.
pub fn validate_password(password: &str) -> (r: Vec<PasswordIssue>)
    ensures
        r@ == password_issues(password@),
        r@.len() == 0 <==> password_well_formed(password@),
{
    let len = password.unicode_len();
    let mut issues: Vec<PasswordIssue> = Vec::new();
    if !(PASSWORD_MIN_LENGTH <= len && len <= PASSWORD_MAX_LENGTH) {
        issues.push(PasswordIssue::Length);
    }
    if !all_password_chars(password) {
        issues.push(PasswordIssue::Charset);
    }
    if !contains_uppercase(password) {
        issues.push(PasswordIssue::MissingUppercase);
    }
    if !contains_lowercase(password) {
        issues.push(PasswordIssue::MissingLowercase);
    }
    if !contains_digit(password) {
        issues.push(PasswordIssue::MissingDigit);
    }
    if !contains_special(password) {
        issues.push(PasswordIssue::MissingSpecial);
    }
    proof {
        assert(issues@ =~= password_issues(password@));
    }
    issues
}

/// What the HTML5 email grammar accepts; the grammar itself lives in
/// the `validator` crate.
pub uninterp spec fn email_accepted(s: Seq<char>) -> bool;

/// Relies on validator::validate_email: acceptance under the HTML5
/// email grammar, a deterministic function of the string alone; the
/// empty string is never accepted.
#[verifier::external_body]
fn email_matches_grammar(email: &str) -> (r: bool)
    ensures
        r == email_accepted(email@),
        email@.len() == 0 ==> !r,
{
    validator::validate_email(email)
}

/// Everything wrong with a pair of credentials, per field.
#[derive(Debug, Clone, PartialEq)]
pub struct CredentialsIssues {
    pub email_invalid: bool,
    pub password: Vec<PasswordIssue>,
}

impl Credentials {
    /// Checks both fields and reports every failing rule at once.
    pub fn validate(&self) -> (r: Result<(), CredentialsIssues>)
        ensures
            r is Ok <==> email_accepted(self.email@) && password_well_formed(self.password@),
            r matches Err(e) ==> e.email_invalid == !email_accepted(self.email@)
                && e.password@ == password_issues(self.password@),
    {
        let email_ok = email_matches_grammar(self.email.as_str());
        let password_issues = validate_password(self.password.as_str());
        if email_ok && password_issues.len() == 0 {
            Ok(())
        } else {
            Err(CredentialsIssues { email_invalid: !email_ok, password: password_issues })
        }
    }
}

/// One failing session-identifier rule.
#[derive(Debug, Clone, Copy, PartialEq, Eq, Structural)]
pub enum SessionIdIssue {
    /// Not exactly the configured length.
    Length,
    /// Contains a character that is not an ASCII letter or digit.
    Charset,
}

/// The full list of rules the presented identifier breaks.
pub open spec fn session_id_issues(s: Seq<char>) -> Seq<SessionIdIssue> {
    (if s.len() != SESSION_ID_LENGTH {
        seq![SessionIdIssue::Length]
    } else {
        Seq::empty()
    }) + (if !(forall|i: int| 0 <= i < s.len() ==> is_alphanumeric_char(#[trigger] s[i])) {
        seq![SessionIdIssue::Charset]
    } else {
        Seq::empty()
    })
}

fn all_alphanumeric(s: &str) -> (r: bool)
    ensures
        r == forall|i: int| 0 <= i < s@.len() ==> is_alphanumeric_char(#[trigger] s@[i]),
{
    let len = s.unicode_len();
    let mut i: usize = 0;
    while i < len
        invariant
            len == s@.len(),
            i <= len,
            forall|j: int| 0 <= j < i ==> is_alphanumeric_char(#[trigger] s@[j]),
        decreases len - i,
    {
        let c = s.get_char(i);
        if !(('0' <= c && c <= '9') || ('a' <= c && c <= 'z') || ('A' <= c && c <= 'Z')) {
            return false;
        }
        i = i + 1;
    }
    true
}

impl SessionId {
    /// Checks the wire-form rules; this runs before any storage lookup.
    pub fn validate(&self) -> (r: Result<(), Vec<SessionIdIssue>>)
        ensures
            r is Ok <==> valid_session_id(self.0@),
            r matches Err(v) ==> v@ == session_id_issues(self.0@) && v@.len() > 0,
    {
        let mut issues: Vec<SessionIdIssue> = Vec::new();
        if self.0.as_str().unicode_len() != SESSION_ID_LENGTH {
            issues.push(SessionIdIssue::Length);
        }
        if !all_alphanumeric(self.0.as_str()) {
            issues.push(SessionIdIssue::Charset);
        }
        proof {
            assert(issues@ =~= session_id_issues(self.0@));
        }
        if issues.len() == 0 {
            Ok(())
        } else {
            Err(issues)
        }
    }
}

} // verus!
