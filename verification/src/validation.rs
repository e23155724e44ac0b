//! The rules that a sign-up or login body must meet before a handler sees
//! it: a well-formed email and a password of at least eight characters.

use vstd::prelude::*;

verus! {

/// The least number of characters in a password.
pub const MIN_PASSWORD_LENGTH: u64 = 8;

/// Whether the `validator` crate accepts `email` as an email address.
pub uninterp spec fn email_accepted(email: Seq<char>) -> bool;

/// Checks an email address with `validator::ValidateEmail::validate_email`,
/// which follows the HTML5 rules for a valid address, with length limits on
/// both parts and internationalised domains allowed.
///
/// The verdict depends on the text alone; it is named, not spelled out.
#[verifier::external_body]
pub(crate) fn email_is_accepted(email: &str) -> (accepted: bool)
    ensures
        accepted == email_accepted(email@),
{
    validator::ValidateEmail::validate_email(&email)
}

/// Checks a text's length with `validator::ValidateLength::validate_length`,
/// which for a string counts the characters and, given only a minimum,
/// accepts every count that is not below it.
#[verifier::external_body]
pub(crate) fn has_min_length(text: &str, min: u64) -> (long_enough: bool)
    ensures
        long_enough == (text@.len() >= min),
{
    validator::ValidateLength::validate_length(&text, Some(min), None, None)
}

/// The fields of a body that break a rule.
#[derive(Debug, Clone, Copy, PartialEq, Eq, Structural)]
pub struct Violations {
    /// The email is not well formed.
    pub email: bool,
    /// The password is too short.
    pub password: bool,
}

/// The verdict on a body, given what the two checks found: it passes if
/// both did, and otherwise every failed check is reported.
pub open spec fn verdict(email_ok: bool, password_ok: bool) -> Result<(), Violations> {
    if email_ok && password_ok {
        Ok(())
    } else {
        Err(Violations { email: !email_ok, password: !password_ok })
    }
}

/// The verdict on an email and a password.
pub open spec fn credentials_verdict(email: Seq<char>, password: Seq<char>) -> Result<
    (),
    Violations,
> {
    verdict(email_accepted(email), password.len() >= MIN_PASSWORD_LENGTH)
}

/// Combines the outcomes of the two checks into the verdict on a body.
pub fn judge(email_ok: bool, password_ok: bool) -> (result: Result<(), Violations>)
    ensures
        result == verdict(email_ok, password_ok),
{
    if email_ok && password_ok {
        Ok(())
    } else {
        Err(Violations { email: !email_ok, password: !password_ok })
    }
}

/// Checks an email and a password against the rules.
pub fn validate_credentials(email: &str, password: &str) -> (result: Result<(), Violations>)
    ensures
        result == credentials_verdict(email@, password@),
{
    let email_ok = email_is_accepted(email);
    let password_ok = has_min_length(password, MIN_PASSWORD_LENGTH);
    judge(email_ok, password_ok)
}

} // verus!
