//! The rules for email and password.

use auth_session::login::LoginParam;
use auth_session::signup::SignupParam;
use auth_session::validation::{judge, validate_credentials, Violations, MIN_PASSWORD_LENGTH};

#[test]
fn passwords_need_eight_characters() {
    assert_eq!(MIN_PASSWORD_LENGTH, 8);
    assert_eq!(validate_credentials("a@x.com", "12345678"), Ok(()));
    assert_eq!(validate_credentials("a@x.com", "123456789"), Ok(()));
    assert_eq!(
        validate_credentials("a@x.com", "1234567"),
        Err(Violations { email: false, password: true })
    );
    assert_eq!(
        validate_credentials("a@x.com", ""),
        Err(Violations { email: false, password: true })
    );
}

#[test]
fn password_length_counts_characters_not_bytes() {
    // Eight characters in ten bytes.
    assert_eq!("pässwörd".len(), 10);
    assert_eq!(validate_credentials("a@x.com", "pässwörd"), Ok(()));
    // Seven characters in thirteen bytes.
    assert_eq!("пароль1".len(), 13);
    assert_eq!(
        validate_credentials("a@x.com", "пароль1"),
        Err(Violations { email: false, password: true })
    );
}

#[test]
fn well_formed_emails_pass() {
    assert_eq!(validate_credentials("a@x.com", "password1"), Ok(()));
    assert_eq!(validate_credentials("email@here.com", "password1"), Ok(()));
    assert_eq!(validate_credentials("weirder-email@here.and.there.com", "password1"), Ok(()));
    assert_eq!(validate_credentials("email@[127.0.0.1]", "password1"), Ok(()));
}

#[test]
fn malformed_emails_are_reported() {
    let malformed = Err(Violations { email: true, password: false });
    assert_eq!(validate_credentials("", "password1"), malformed);
    assert_eq!(validate_credentials("abc", "password1"), malformed);
    assert_eq!(validate_credentials("abc@", "password1"), malformed);
    assert_eq!(validate_credentials("@x.com", "password1"), malformed);
    assert_eq!(validate_credentials("a @x.com", "password1"), malformed);
    assert_eq!(validate_credentials("a@x.com\n", "password1"), malformed);
    assert_eq!(validate_credentials("password1", "password1"), malformed);
}

#[test]
fn every_broken_rule_is_reported() {
    assert_eq!(
        validate_credentials("not-an-email", "short"),
        Err(Violations { email: true, password: true })
    );
}

#[test]
fn judge_passes_only_when_both_checks_did() {
    assert_eq!(judge(true, true), Ok(()));
    assert_eq!(judge(false, true), Err(Violations { email: true, password: false }));
    assert_eq!(judge(true, false), Err(Violations { email: false, password: true }));
    assert_eq!(judge(false, false), Err(Violations { email: true, password: true }));
}

#[test]
fn signup_body_is_held_to_the_rules() {
    let body = SignupParam {
        email: "a@x.com".to_string(),
        password: "password1".to_string(),
        nickname: "Al".to_string(),
    };
    assert_eq!(body.validate(), Ok(()));
    let body = SignupParam {
        email: "a.x.com".to_string(),
        password: "pass".to_string(),
        nickname: String::new(),
    };
    assert_eq!(body.validate(), Err(Violations { email: true, password: true }));
}

#[test]
fn login_body_is_held_to_the_rules() {
    let body = LoginParam { email: "a@x.com".to_string(), password: "password1".to_string() };
    assert_eq!(body.validate(), Ok(()));
    let body = LoginParam { email: "a@x.com".to_string(), password: "passwor".to_string() };
    assert_eq!(body.validate(), Err(Violations { email: false, password: true }));
    let body = LoginParam { email: "a@".to_string(), password: "password1".to_string() };
    assert_eq!(body.validate(), Err(Violations { email: true, password: false }));
}
