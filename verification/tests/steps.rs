//! Single steps of the four handlers, each against its exact expected value.

use auth_session::clock::timestamp_from_seconds;
use auth_session::exchange::{Action, Event, Step};
use auth_session::grammar::{render_document, RenderDocumentParam, RenderDocumentResponse};
use auth_session::http::{
    AccessCookie, Body, Reply, ServerErrorResponse, StatusCode, ACCESS_TOKEN_MAX_AGE_SECONDS,
};
use auth_session::login::{login, LoginParam, LoginResponse, LoginState};
use auth_session::logout::{logout, LogoutParam, LogoutResponse, LogoutState};
use auth_session::records::{NewRefreshToken, NewUser, User};
use auth_session::refresh::{refresh, RefreshParam, RefreshResponse, RefreshState};
use auth_session::signup::{signup, SignupParam, SignupResponse, SignupState};

fn text(s: &str) -> String {
    s.to_string()
}

fn alice() -> User {
    User {
        id: 7,
        email: text("a@x.com"),
        password_hash: text("digest-of-password1-and-pepper"),
        salt: text("pepper"),
        nickname: text("Al"),
        role: text("member"),
        active: true,
    }
}

fn bob() -> User {
    User {
        id: 8,
        email: text("a@x.com"),
        password_hash: text("another-digest"),
        salt: text("salt-of-bob"),
        nickname: text("Bob"),
        role: text("admin"),
        active: true,
    }
}

fn signup_param() -> SignupParam {
    SignupParam { email: text("a@x.com"), password: text("password1"), nickname: text("Al") }
}

fn login_param() -> LoginParam {
    LoginParam { email: text("a@x.com"), password: text("password1") }
}

fn server_error<P>(status: StatusCode) -> Reply<P> {
    Reply {
        status,
        body: Body::ServerError(ServerErrorResponse {
            success: false,
            message: text("internal server error"),
        }),
        cookie: None,
    }
}

fn issued(token: &str) -> AccessCookie {
    AccessCookie {
        name: text("access_token"),
        value: text(token),
        http_only: true,
        max_age_seconds: 3600,
        path: text("/"),
    }
}

fn login_refusal() -> Reply<LoginResponse> {
    Reply {
        status: StatusCode::Success,
        body: Body::Payload(LoginResponse {
            success: false,
            login_failed: true,
            access_token: text(""),
            refresh_token: text(""),
            message: text("login failed"),
        }),
        cookie: None,
    }
}

fn refresh_expiry() -> Reply<RefreshResponse> {
    Reply {
        status: StatusCode::Success,
        body: Body::Payload(RefreshResponse {
            success: false,
            expired: true,
            access_token: text(""),
            message: text("logout failed"),
        }),
        cookie: None,
    }
}

#[test]
fn status_codes_are_200_and_500() {
    assert_eq!(StatusCode::Success.code(), 200);
    assert_eq!(StatusCode::InternalServerError.code(), 500);
}

#[test]
fn access_token_lives_one_hour() {
    assert_eq!(ACCESS_TOKEN_MAX_AGE_SECONDS, 60 * 60);
}

#[test]
fn server_error_payload_is_generic() {
    assert_eq!(
        ServerErrorResponse::new(),
        ServerErrorResponse { success: false, message: text("internal server error") }
    );
    assert_eq!(
        Reply::<SignupResponse>::server_error(StatusCode::InternalServerError),
        server_error(StatusCode::InternalServerError)
    );
}

#[test]
fn issued_cookie_is_http_only_for_an_hour_on_the_root_path() {
    assert_eq!(AccessCookie::issue(text("tok")), issued("tok"));
}

#[test]
fn cleared_cookie_is_empty_and_expires_at_once() {
    assert_eq!(
        AccessCookie::clear(),
        AccessCookie {
            name: text("access_token"),
            value: text(""),
            http_only: true,
            max_age_seconds: 0,
            path: text("/"),
        }
    );
}

#[test]
fn issued_cookie_renders_as_a_set_cookie_header() {
    assert_eq!(
        AccessCookie::issue(text("tok")).header_value(),
        "access_token=tok; HttpOnly; Path=/; Max-Age=3600"
    );
    assert_eq!(
        AccessCookie::issue(text("a.7.member")).header_value(),
        "access_token=a.7.member; HttpOnly; Path=/; Max-Age=3600"
    );
}

#[test]
fn cleared_cookie_renders_with_max_age_zero() {
    assert_eq!(AccessCookie::clear().header_value(), "access_token=; HttpOnly; Path=/; Max-Age=0");
}

#[test]
fn cookie_header_follows_every_attribute() {
    let cookie = AccessCookie {
        name: text("sid"),
        value: text("v"),
        http_only: false,
        max_age_seconds: 90,
        path: text("/auth"),
    };
    assert_eq!(cookie.header_value(), "sid=v; Path=/auth; Max-Age=90");
}

#[test]
fn plain_reply_sets_no_cookie() {
    let reply = Reply::plain(StatusCode::Success, 5u8);
    assert_eq!(
        reply,
        Reply { status: StatusCode::Success, body: Body::Payload(5u8), cookie: None }
    );
}

#[test]
fn reply_with_cookie_has_status_200() {
    let reply = Reply::with_cookie(5u8, AccessCookie::clear());
    assert_eq!(reply.status, StatusCode::Success);
    assert_eq!(reply.body, Body::Payload(5u8));
    assert_eq!(reply.cookie, Some(AccessCookie::clear()));
}

#[test]
fn timestamps_wrap_like_a_signed_conversion() {
    assert_eq!(timestamp_from_seconds(0), 0);
    assert_eq!(timestamp_from_seconds(1_700_000_000), 1_700_000_000);
    assert_eq!(timestamp_from_seconds(i64::MAX as u64), i64::MAX);
    assert_eq!(timestamp_from_seconds(1u64 << 63), i64::MIN);
    assert_eq!(timestamp_from_seconds(u64::MAX), -1);
    assert_eq!(timestamp_from_seconds(u64::MAX - 41), -42);
}

#[test]
fn render_document_returns_the_empty_page() {
    let reply = render_document(RenderDocumentParam { content: text("= Title =\nbody") });
    assert_eq!(
        reply,
        Reply {
            status: StatusCode::Success,
            body: Body::Payload(RenderDocumentResponse { success: true, html: text("") }),
            cookie: None,
        }
    );
    let empty = render_document(RenderDocumentParam { content: text("") });
    assert_eq!(empty, reply);
}

#[test]
fn signup_starts_by_asking_for_the_connection() {
    let step = signup(SignupState::new(signup_param()), Event::Start);
    assert_eq!(
        step,
        Step::Perform {
            state: SignupState::AwaitingConnection(signup_param()),
            action: Action::AcquireConnection,
        }
    );
}

#[test]
fn signup_checks_the_email_first() {
    let step = signup(
        SignupState::AwaitingConnection(signup_param()),
        Event::Connection { acquired: true },
    );
    assert_eq!(
        step,
        Step::Perform {
            state: SignupState::CheckingEmail(signup_param()),
            action: Action::EmailExists { email: text("a@x.com") },
        }
    );
}

#[test]
fn signup_without_connection_is_a_server_error() {
    let step = signup(
        SignupState::AwaitingConnection(signup_param()),
        Event::Connection { acquired: false },
    );
    assert_eq!(step, Step::Respond(server_error(StatusCode::InternalServerError)));
}

#[test]
fn signup_turns_a_taken_email_down() {
    let step = signup(SignupState::CheckingEmail(signup_param()), Event::Flag(Ok(true)));
    assert_eq!(
        step,
        Step::Respond(Reply {
            status: StatusCode::Success,
            body: Body::Payload(SignupResponse {
                success: false,
                email_duplicated: true,
                message: text("email already exists"),
            }),
            cookie: None,
        })
    );
}

#[test]
fn signup_email_check_failure_is_a_server_error() {
    let step = signup(
        SignupState::CheckingEmail(signup_param()),
        Event::Flag(Err(text("connection reset"))),
    );
    assert_eq!(step, Step::Respond(server_error(StatusCode::InternalServerError)));
}

#[test]
fn signup_draws_a_salt_for_a_free_email() {
    let step = signup(SignupState::CheckingEmail(signup_param()), Event::Flag(Ok(false)));
    assert_eq!(
        step,
        Step::Perform {
            state: SignupState::AwaitingSalt(signup_param()),
            action: Action::GenerateSalt,
        }
    );
}

#[test]
fn signup_hashes_password_followed_by_salt() {
    let step = signup(SignupState::AwaitingSalt(signup_param()), Event::Text(text("NaCl")));
    assert_eq!(
        step,
        Step::Perform {
            state: SignupState::AwaitingDigest {
                email: text("a@x.com"),
                salt: text("NaCl"),
                nickname: text("Al"),
            },
            action: Action::Hash { plaintext: text("password1NaCl") },
        }
    );
}

#[test]
fn signup_inserts_digest_and_salt() {
    let step = signup(
        SignupState::AwaitingDigest {
            email: text("a@x.com"),
            salt: text("NaCl"),
            nickname: text("Al"),
        },
        Event::Text(text("0xfeed")),
    );
    assert_eq!(
        step,
        Step::Perform {
            state: SignupState::Inserting,
            action: Action::InsertUser(NewUser {
                email: text("a@x.com"),
                password_hash: text("0xfeed"),
                salt: text("NaCl"),
                nickname: text("Al"),
            }),
        }
    );
}

#[test]
fn signup_reports_the_created_account() {
    let step = signup(SignupState::Inserting, Event::Written(Ok(())));
    assert_eq!(
        step,
        Step::Respond(Reply {
            status: StatusCode::Success,
            body: Body::Payload(SignupResponse {
                success: true,
                email_duplicated: false,
                message: text(""),
            }),
            cookie: None,
        })
    );
}

#[test]
fn signup_insert_failure_is_a_server_error() {
    let step = signup(SignupState::Inserting, Event::Written(Err(text("disk full"))));
    assert_eq!(step, Step::Respond(server_error(StatusCode::InternalServerError)));
}

#[test]
fn signup_answers_an_unexpected_event_with_a_server_error() {
    let step = signup(SignupState::Inserting, Event::Text(text("stray")));
    assert_eq!(step, Step::Respond(server_error(StatusCode::InternalServerError)));
    let step = signup(SignupState::new(signup_param()), Event::Flag(Ok(false)));
    assert_eq!(step, Step::Respond(server_error(StatusCode::InternalServerError)));
    let step = signup(SignupState::CheckingEmail(signup_param()), Event::Start);
    assert_eq!(step, Step::Respond(server_error(StatusCode::InternalServerError)));
}

#[test]
fn login_starts_by_asking_for_the_connection() {
    let step = login(LoginState::new(login_param()), Event::Start);
    assert_eq!(
        step,
        Step::Perform {
            state: LoginState::AwaitingConnection(login_param()),
            action: Action::AcquireConnection,
        }
    );
}

#[test]
fn login_without_connection_is_a_server_error() {
    let step = login(
        LoginState::AwaitingConnection(login_param()),
        Event::Connection { acquired: false },
    );
    assert_eq!(step, Step::Respond(server_error(StatusCode::InternalServerError)));
}

#[test]
fn login_looks_up_active_users_by_email() {
    let step = login(
        LoginState::AwaitingConnection(login_param()),
        Event::Connection { acquired: true },
    );
    assert_eq!(
        step,
        Step::Perform {
            state: LoginState::LookingUp { password: text("password1") },
            action: Action::FindActiveUsersByEmail { email: text("a@x.com") },
        }
    );
}

#[test]
fn login_refuses_an_unknown_email() {
    let step = login(
        LoginState::LookingUp { password: text("password1") },
        Event::Users(Ok(Vec::new())),
    );
    assert_eq!(step, Step::Respond(login_refusal()));
}

#[test]
fn login_lookup_failure_repeats_the_error_text() {
    let step = login(
        LoginState::LookingUp { password: text("password1") },
        Event::Users(Err(text("relation tb_user does not exist"))),
    );
    assert_eq!(
        step,
        Step::Respond(Reply {
            status: StatusCode::InternalServerError,
            body: Body::Payload(LoginResponse {
                success: false,
                login_failed: false,
                access_token: text(""),
                refresh_token: text(""),
                message: text("relation tb_user does not exist"),
            }),
            cookie: None,
        })
    );
}

#[test]
fn login_hashes_password_followed_by_the_first_users_salt() {
    let step = login(
        LoginState::LookingUp { password: text("password1") },
        Event::Users(Ok(vec![alice(), bob()])),
    );
    assert_eq!(
        step,
        Step::Perform {
            state: LoginState::CheckingPassword {
                user_id: 7,
                role: text("member"),
                password_hash: text("digest-of-password1-and-pepper"),
            },
            action: Action::Hash { plaintext: text("password1pepper") },
        }
    );
}

#[test]
fn login_refuses_a_wrong_password() {
    let step = login(
        LoginState::CheckingPassword {
            user_id: 7,
            role: text("member"),
            password_hash: text("digest-of-password1-and-pepper"),
        },
        Event::Text(text("digest-of-password2-and-pepper")),
    );
    assert_eq!(step, Step::Respond(login_refusal()));
}

#[test]
fn login_signs_a_refresh_token_after_the_password_matched() {
    let step = login(
        LoginState::CheckingPassword {
            user_id: 7,
            role: text("member"),
            password_hash: text("digest-of-password1-and-pepper"),
        },
        Event::Text(text("digest-of-password1-and-pepper")),
    );
    assert_eq!(
        step,
        Step::Perform {
            state: LoginState::SigningRefreshToken { user_id: 7, role: text("member") },
            action: Action::CreateRefreshToken { user_id: 7, role: text("member") },
        }
    );
}

#[test]
fn login_records_the_refresh_token_for_the_user() {
    let step = login(
        LoginState::SigningRefreshToken { user_id: 7, role: text("member") },
        Event::Text(text("r.7.member")),
    );
    assert_eq!(
        step,
        Step::Perform {
            state: LoginState::Recording {
                user_id: 7,
                role: text("member"),
                refresh_token: text("r.7.member"),
            },
            action: Action::InsertRefreshToken(NewRefreshToken {
                token_value: text("r.7.member"),
                user_id: 7,
            }),
        }
    );
}

#[test]
fn login_signs_the_access_token_once_the_record_is_written() {
    let step = login(
        LoginState::Recording {
            user_id: 7,
            role: text("member"),
            refresh_token: text("r.7.member"),
        },
        Event::Written(Ok(())),
    );
    assert_eq!(
        step,
        Step::Perform {
            state: LoginState::SigningAccessToken { refresh_token: text("r.7.member") },
            action: Action::CreateAccessToken { user_id: 7, role: text("member") },
        }
    );
}

#[test]
fn login_record_failure_is_a_server_error_without_access_token() {
    let step = login(
        LoginState::Recording {
            user_id: 7,
            role: text("member"),
            refresh_token: text("r.7.member"),
        },
        Event::Written(Err(text("deadlock detected"))),
    );
    assert_eq!(step, Step::Respond(server_error(StatusCode::InternalServerError)));
}

#[test]
fn login_hands_out_both_tokens_and_sets_the_cookie() {
    let step = login(
        LoginState::SigningAccessToken { refresh_token: text("r.7.member") },
        Event::Text(text("a.7.member")),
    );
    assert_eq!(
        step,
        Step::Respond(Reply {
            status: StatusCode::Success,
            body: Body::Payload(LoginResponse {
                success: true,
                login_failed: false,
                access_token: text("a.7.member"),
                refresh_token: text("r.7.member"),
                message: text("success"),
            }),
            cookie: Some(issued("a.7.member")),
        })
    );
}

#[test]
fn login_answers_an_unexpected_event_with_a_server_error() {
    let step = login(
        LoginState::SigningAccessToken { refresh_token: text("r.7.member") },
        Event::Written(Ok(())),
    );
    assert_eq!(step, Step::Respond(server_error(StatusCode::InternalServerError)));
    let step = login(LoginState::LookingUp { password: text("password1") }, Event::Flag(Ok(true)));
    assert_eq!(step, Step::Respond(server_error(StatusCode::InternalServerError)));
}

#[test]
fn logout_starts_by_asking_for_the_connection() {
    let param = LogoutParam { refresh_token: text("r.7.member") };
    let step = logout(LogoutState::new(param.clone()), Event::Start);
    assert_eq!(
        step,
        Step::Perform {
            state: LogoutState::AwaitingConnection(param),
            action: Action::AcquireConnection,
        }
    );
}

#[test]
fn logout_reads_the_clock_once_the_connection_is_held() {
    let param = LogoutParam { refresh_token: text("r.7.member") };
    let step = logout(
        LogoutState::AwaitingConnection(param.clone()),
        Event::Connection { acquired: true },
    );
    assert_eq!(
        step,
        Step::Perform { state: LogoutState::ReadingClock(param), action: Action::ReadClock }
    );
}

#[test]
fn logout_revokes_the_token_as_of_the_clock_reading() {
    let param = LogoutParam { refresh_token: text("r.7.member") };
    let step = logout(LogoutState::ReadingClock(param), Event::Time { seconds: 1_700_000_123 });
    assert_eq!(
        step,
        Step::Perform {
            state: LogoutState::Revoking,
            action: Action::RevokeRefreshToken {
                token_value: text("r.7.member"),
                dead_utc: 1_700_000_123,
            },
        }
    );
}

#[test]
fn logout_wraps_a_clock_reading_that_does_not_fit() {
    let param = LogoutParam { refresh_token: text("r.7.member") };
    let step = logout(LogoutState::ReadingClock(param), Event::Time { seconds: u64::MAX });
    assert_eq!(
        step,
        Step::Perform {
            state: LogoutState::Revoking,
            action: Action::RevokeRefreshToken { token_value: text("r.7.member"), dead_utc: -1 },
        }
    );
}

#[test]
fn logout_without_connection_is_a_server_error() {
    let param = LogoutParam { refresh_token: text("r.7.member") };
    let step = logout(
        LogoutState::AwaitingConnection(param),
        Event::Connection { acquired: false },
    );
    assert_eq!(step, Step::Respond(server_error(StatusCode::InternalServerError)));
}

#[test]
fn logout_confirms_and_clears_the_cookie() {
    let step = logout(LogoutState::Revoking, Event::Written(Ok(())));
    assert_eq!(
        step,
        Step::Respond(Reply {
            status: StatusCode::Success,
            body: Body::Payload(LogoutResponse {
                success: true,
                message: text("logout success"),
            }),
            cookie: Some(AccessCookie {
                name: text("access_token"),
                value: text(""),
                http_only: true,
                max_age_seconds: 0,
                path: text("/"),
            }),
        })
    );
}

#[test]
fn logout_transaction_failure_is_a_generic_server_error() {
    let step = logout(LogoutState::Revoking, Event::Written(Err(text("rolled back"))));
    assert_eq!(step, Step::Respond(server_error(StatusCode::InternalServerError)));
    match step {
        Step::Respond(reply) => {
            assert_eq!(reply.status.code(), 500);
            assert_eq!(reply.cookie, None);
            match reply.body {
                Body::ServerError(error) => {
                    assert!(!error.success);
                    assert!(!error.message.contains("rolled back"));
                }
                Body::Payload(payload) => panic!("payload: {:?}", payload),
            }
        }
        other => panic!("unexpected step: {:?}", other),
    }
}

#[test]
fn logout_answers_an_unexpected_event_with_a_server_error() {
    let param = LogoutParam { refresh_token: text("r.7.member") };
    let step = logout(LogoutState::Revoking, Event::Flag(Ok(true)));
    assert_eq!(step, Step::Respond(server_error(StatusCode::InternalServerError)));
    let step = logout(LogoutState::ReadingClock(param.clone()), Event::Written(Ok(())));
    assert_eq!(step, Step::Respond(server_error(StatusCode::InternalServerError)));
    let step = logout(LogoutState::AwaitingConnection(param), Event::Time { seconds: 5 });
    assert_eq!(step, Step::Respond(server_error(StatusCode::InternalServerError)));
}

#[test]
fn other_handlers_do_not_take_a_clock_reading() {
    let step = signup(SignupState::Inserting, Event::Time { seconds: 5 });
    assert_eq!(step, Step::Respond(server_error(StatusCode::InternalServerError)));
    let step = login(
        LoginState::SigningAccessToken { refresh_token: text("r.7.member") },
        Event::Time { seconds: 5 },
    );
    assert_eq!(step, Step::Respond(server_error(StatusCode::InternalServerError)));
    let step = refresh(RefreshState::Verifying, Event::Time { seconds: 5 });
    assert_eq!(step, Step::Respond(server_error(StatusCode::InternalServerError)));
}

#[test]
fn refresh_starts_by_asking_for_the_connection() {
    let param = RefreshParam { refresh_token: text("r.7.member") };
    let step = refresh(RefreshState::new(param.clone()), Event::Start);
    assert_eq!(
        step,
        Step::Perform {
            state: RefreshState::AwaitingConnection(param),
            action: Action::AcquireConnection,
        }
    );
}

#[test]
fn refresh_without_connection_is_a_server_error() {
    let param = RefreshParam { refresh_token: text("r.7.member") };
    let step = refresh(
        RefreshState::AwaitingConnection(param),
        Event::Connection { acquired: false },
    );
    assert_eq!(step, Step::Respond(server_error(StatusCode::InternalServerError)));
}

#[test]
fn refresh_checks_liveness_before_the_signature() {
    let param = RefreshParam { refresh_token: text("r.7.member") };
    let step = refresh(
        RefreshState::AwaitingConnection(param),
        Event::Connection { acquired: true },
    );
    assert_eq!(
        step,
        Step::Perform {
            state: RefreshState::CheckingLiveness { refresh_token: text("r.7.member") },
            action: Action::RefreshTokenIsLive { token_value: text("r.7.member") },
        }
    );
    let step = refresh(
        RefreshState::CheckingLiveness { refresh_token: text("r.7.member") },
        Event::Flag(Ok(true)),
    );
    assert_eq!(
        step,
        Step::Perform {
            state: RefreshState::Verifying,
            action: Action::VerifyRefreshToken { token: text("r.7.member") },
        }
    );
}

#[test]
fn refresh_turns_a_dead_token_down_as_expired() {
    let step = refresh(
        RefreshState::CheckingLiveness { refresh_token: text("r.7.member") },
        Event::Flag(Ok(false)),
    );
    assert_eq!(step, Step::Respond(refresh_expiry()));
}

#[test]
fn refresh_liveness_failure_is_a_server_error() {
    let step = refresh(
        RefreshState::CheckingLiveness { refresh_token: text("r.7.member") },
        Event::Flag(Err(text("timeout"))),
    );
    assert_eq!(step, Step::Respond(server_error(StatusCode::InternalServerError)));
}

#[test]
fn refresh_turns_an_invalid_token_down_as_expired() {
    let step = refresh(RefreshState::Verifying, Event::Verified(None));
    assert_eq!(step, Step::Respond(refresh_expiry()));
}

#[test]
fn refresh_loads_the_user_named_in_the_token() {
    let step = refresh(RefreshState::Verifying, Event::Verified(Some(7)));
    assert_eq!(
        step,
        Step::Perform {
            state: RefreshState::LookingUp { user_id: 7 },
            action: Action::FindUserById { id: 7 },
        }
    );
}

#[test]
fn refresh_reports_a_missing_user() {
    let step = refresh(RefreshState::LookingUp { user_id: 7 }, Event::Users(Ok(Vec::new())));
    assert_eq!(
        step,
        Step::Respond(Reply {
            status: StatusCode::Success,
            body: Body::Payload(RefreshResponse {
                success: false,
                expired: false,
                access_token: text(""),
                message: text("user not exists"),
            }),
            cookie: None,
        })
    );
}

#[test]
fn refresh_user_lookup_failure_is_generic_under_status_200() {
    let step = refresh(
        RefreshState::LookingUp { user_id: 7 },
        Event::Users(Err(text("timeout"))),
    );
    assert_eq!(step, Step::Respond(server_error(StatusCode::Success)));
}

#[test]
fn refresh_signs_for_the_role_of_the_first_user() {
    let step = refresh(
        RefreshState::LookingUp { user_id: 7 },
        Event::Users(Ok(vec![alice(), bob()])),
    );
    assert_eq!(
        step,
        Step::Perform {
            state: RefreshState::SigningAccessToken,
            action: Action::CreateAccessToken { user_id: 7, role: text("member") },
        }
    );
}

#[test]
fn refresh_hands_out_the_access_token_and_sets_the_cookie() {
    let step = refresh(RefreshState::SigningAccessToken, Event::Text(text("a.7.member")));
    assert_eq!(
        step,
        Step::Respond(Reply {
            status: StatusCode::Success,
            body: Body::Payload(RefreshResponse {
                success: true,
                expired: false,
                access_token: text("a.7.member"),
                message: text("refresh success"),
            }),
            cookie: Some(issued("a.7.member")),
        })
    );
}

#[test]
fn refresh_answers_an_unexpected_event_with_a_server_error() {
    let step = refresh(RefreshState::SigningAccessToken, Event::Verified(Some(7)));
    assert_eq!(step, Step::Respond(server_error(StatusCode::InternalServerError)));
    let step = refresh(RefreshState::Verifying, Event::Text(text("stray")));
    assert_eq!(step, Step::Respond(server_error(StatusCode::InternalServerError)));
}
