//! Login: check a password and open a session, which is a recorded refresh
//! token and an access token issued after it.

use vstd::prelude::*;
use crate::exchange::{Action, ActionView, Event, EventView, Step, StepView};
use crate::http::{
    issued_cookie, plain_reply, reply_with_cookie, server_error_reply, AccessCookie, Reply,
    StatusCode,
};
use crate::records::{NewRefreshToken, NewRefreshTokenView};
use crate::validation::{credentials_verdict, validate_credentials, Violations};

verus! {

/// The body of a login request.
#[derive(Debug, Clone, PartialEq, Eq)]
pub struct LoginParam {
    pub email: String,
    pub password: String,
}

/// The mathematical value of a [`LoginParam`].
pub struct LoginParamView {
    pub email: Seq<char>,
    pub password: Seq<char>,
}

impl View for LoginParam {
    type V = LoginParamView;

    open spec fn view(&self) -> LoginParamView {
        LoginParamView { email: self.email@, password: self.password@ }
    }
}

/// The payload of a login reply.
#[derive(Debug, Clone, PartialEq, Eq)]
pub struct LoginResponse {
    pub success: bool,
    pub login_failed: bool,
    pub access_token: String,
    pub refresh_token: String,
    pub message: String,
}

/// The mathematical value of a [`LoginResponse`].
pub struct LoginResponseView {
    pub success: bool,
    pub login_failed: bool,
    pub access_token: Seq<char>,
    pub refresh_token: Seq<char>,
    pub message: Seq<char>,
}

impl View for LoginResponse {
    type V = LoginResponseView;

    open spec fn view(&self) -> LoginResponseView {
        LoginResponseView {
            success: self.success,
            login_failed: self.login_failed,
            access_token: self.access_token@,
            refresh_token: self.refresh_token@,
            message: self.message@,
        }
    }
}

/// The payload that turns bad credentials down: an unknown or inactive
/// email and a wrong password look the same.
pub open spec fn login_refused() -> LoginResponseView {
    LoginResponseView {
        success: false,
        login_failed: true,
        access_token: Seq::empty(),
        refresh_token: Seq::empty(),
        message: "login failed"@,
    }
}

/// The payload that hands a new session's two tokens out.
pub open spec fn login_granted(
    access_token: Seq<char>,
    refresh_token: Seq<char>,
) -> LoginResponseView {
    LoginResponseView {
        success: true,
        login_failed: false,
        access_token,
        refresh_token,
        message: "success"@,
    }
}

/// The payload sent when the user lookup failed: it repeats the store's
/// error text.
pub open spec fn login_lookup_failed(error: Seq<char>) -> LoginResponseView {
    LoginResponseView {
        success: false,
        login_failed: false,
        access_token: Seq::empty(),
        refresh_token: Seq::empty(),
        message: error,
    }
}

/// Where a login stands between two events.
#[derive(Debug, Clone, PartialEq, Eq)]
pub enum LoginState {
    /// The request has arrived.
    Received(LoginParam),
    /// The connection has been asked for.
    AwaitingConnection(LoginParam),
    /// The user store is loading the active users with the email.
    LookingUp { password: String },
    /// The submitted password, salted, is being hashed.
    CheckingPassword { user_id: i64, role: String, password_hash: String },
    /// The password matched; the refresh token is being signed.
    SigningRefreshToken { user_id: i64, role: String },
    /// The refresh token is being recorded.
    Recording { user_id: i64, role: String, refresh_token: String },
    /// The refresh token is recorded; the access token is being signed.
    SigningAccessToken { refresh_token: String },
}

/// The mathematical value of a [`LoginState`].
pub enum LoginStateView {
    Received(LoginParamView),
    AwaitingConnection(LoginParamView),
    LookingUp { password: Seq<char> },
    CheckingPassword { user_id: i64, role: Seq<char>, password_hash: Seq<char> },
    SigningRefreshToken { user_id: i64, role: Seq<char> },
    Recording { user_id: i64, role: Seq<char>, refresh_token: Seq<char> },
    SigningAccessToken { refresh_token: Seq<char> },
}

impl View for LoginState {
    type V = LoginStateView;

    open spec fn view(&self) -> LoginStateView {
        match self {
            LoginState::Received(param) => LoginStateView::Received(param@),
            LoginState::AwaitingConnection(param) => LoginStateView::AwaitingConnection(param@),
            LoginState::LookingUp { password } => LoginStateView::LookingUp { password: password@ },
            LoginState::CheckingPassword { user_id, role, password_hash } => {
                LoginStateView::CheckingPassword {
                    user_id: *user_id,
                    role: role@,
                    password_hash: password_hash@,
                }
            },
            LoginState::SigningRefreshToken { user_id, role } => {
                LoginStateView::SigningRefreshToken { user_id: *user_id, role: role@ }
            },
            LoginState::Recording { user_id, role, refresh_token } => LoginStateView::Recording {
                user_id: *user_id,
                role: role@,
                refresh_token: refresh_token@,
            },
            LoginState::SigningAccessToken { refresh_token } => LoginStateView::SigningAccessToken {
                refresh_token: refresh_token@,
            },
        }
    }
}

/// The login decision table.
///
/// The first active user with the email is the one whose password counts:
/// the submitted password followed by that user's salt is hashed and the
/// digest compared with the stored one. No such user, or another digest,
/// is answered with status 200 and the refusal. After a match the refresh
/// token is signed and recorded, and only when the store has confirmed the
/// record is the access token signed; the reply then carries both tokens
/// and sets the access-token cookie. A failed lookup is answered with status
/// 500 and the store's error text; a connection that cannot be taken, a
/// record that cannot be written and an event that does not answer what was
/// asked, with status 500 and the generic payload.
pub open spec fn login_step(state: LoginStateView, event: EventView) -> StepView<
    LoginStateView,
    LoginResponseView,
> {
    match (state, event) {
        (LoginStateView::Received(param), EventView::Start) => StepView::Perform {
            state: LoginStateView::AwaitingConnection(param),
            action: ActionView::AcquireConnection,
        },
        (
            LoginStateView::AwaitingConnection(param),
            EventView::Connection { acquired: true },
        ) => StepView::Perform {
            state: LoginStateView::LookingUp { password: param.password },
            action: ActionView::FindActiveUsersByEmail { email: param.email },
        },
        (LoginStateView::LookingUp { password }, EventView::Users(Ok(users))) => {
            if users.len() == 0 {
                StepView::Respond(plain_reply(StatusCode::Success, login_refused()))
            } else {
                StepView::Perform {
                    state: LoginStateView::CheckingPassword {
                        user_id: users[0].id,
                        role: users[0].role,
                        password_hash: users[0].password_hash,
                    },
                    action: ActionView::Hash { plaintext: password + users[0].salt },
                }
            }
        },
        (LoginStateView::LookingUp { password }, EventView::Users(Err(error))) => {
            StepView::Respond(
                plain_reply(StatusCode::InternalServerError, login_lookup_failed(error)),
            )
        },
        (
            LoginStateView::CheckingPassword { user_id, role, password_hash },
            EventView::Text(digest),
        ) => {
            if digest == password_hash {
                StepView::Perform {
                    state: LoginStateView::SigningRefreshToken { user_id, role },
                    action: ActionView::CreateRefreshToken { user_id, role },
                }
            } else {
                StepView::Respond(plain_reply(StatusCode::Success, login_refused()))
            }
        },
        (
            LoginStateView::SigningRefreshToken { user_id, role },
            EventView::Text(refresh_token),
        ) => StepView::Perform {
            state: LoginStateView::Recording { user_id, role, refresh_token },
            action: ActionView::InsertRefreshToken(
                NewRefreshTokenView { token_value: refresh_token, user_id },
            ),
        },
        (
            LoginStateView::Recording { user_id, role, refresh_token },
            EventView::Written(Ok(_)),
        ) => StepView::Perform {
            state: LoginStateView::SigningAccessToken { refresh_token },
            action: ActionView::CreateAccessToken { user_id, role },
        },
        (
            LoginStateView::SigningAccessToken { refresh_token },
            EventView::Text(access_token),
        ) => StepView::Respond(
            reply_with_cookie(
                login_granted(access_token, refresh_token),
                issued_cookie(access_token),
            ),
        ),
        _ => StepView::Respond(server_error_reply(StatusCode::InternalServerError)),
    }
}

impl LoginParam {
    /// Checks the body against the rules for email and password.
    pub fn validate(&self) -> (result: Result<(), Violations>)
        ensures
            result == credentials_verdict(self.email@, self.password@),
    {
        validate_credentials(self.email.as_str(), self.password.as_str())
    }
}

impl LoginState {
    /// The state in which a login starts; its first event is
    /// [`Event::Start`].
    pub fn new(param: LoginParam) -> (state: LoginState)
        ensures
            state@ == LoginStateView::Received(param@),
    {
        LoginState::Received(param)
    }
}

impl LoginResponse {
    /// The refusal of bad credentials.
    pub fn refused() -> (response: LoginResponse)
        ensures
            response@ == login_refused(),
    {
        LoginResponse {
            success: false,
            login_failed: true,
            access_token: String::new(),
            refresh_token: String::new(),
            message: "login failed".to_owned(),
        }
    }
}

/// Advances a login by one event, as [`login_step`] lays down.
pub fn login(state: LoginState, event: Event) -> (step: Step<LoginState, LoginResponse>)
    ensures
        step@ == login_step(state@, event@),
{
    match (state, event) {
        (LoginState::Received(param), Event::Start) => Step::Perform {
            state: LoginState::AwaitingConnection(param),
            action: Action::AcquireConnection,
        },
        (LoginState::AwaitingConnection(param), Event::Connection { acquired: true }) => {
            Step::Perform {
                state: LoginState::LookingUp { password: param.password },
                action: Action::FindActiveUsersByEmail { email: param.email },
            }
        },
        (LoginState::LookingUp { password }, Event::Users(Ok(users))) => {
            if users.len() == 0 {
                Step::Respond(Reply::plain(StatusCode::Success, LoginResponse::refused()))
            } else {
                let plaintext = password.concat(users[0].salt.as_str());
                Step::Perform {
                    state: LoginState::CheckingPassword {
                        user_id: users[0].id,
                        role: users[0].role.clone(),
                        password_hash: users[0].password_hash.clone(),
                    },
                    action: Action::Hash { plaintext },
                }
            }
        },
        (LoginState::LookingUp { password: _ }, Event::Users(Err(error))) => Step::Respond(
            Reply::plain(
                StatusCode::InternalServerError,
                LoginResponse {
                    success: false,
                    login_failed: false,
                    access_token: String::new(),
                    refresh_token: String::new(),
                    message: error,
                },
            ),
        ),
        (LoginState::CheckingPassword { user_id, role, password_hash }, Event::Text(digest)) => {
            if digest == password_hash {
                let signed_for = role.clone();
                Step::Perform {
                    state: LoginState::SigningRefreshToken { user_id, role },
                    action: Action::CreateRefreshToken { user_id, role: signed_for },
                }
            } else {
                Step::Respond(Reply::plain(StatusCode::Success, LoginResponse::refused()))
            }
        },
        (LoginState::SigningRefreshToken { user_id, role }, Event::Text(refresh_token)) => {
            let token_value = refresh_token.clone();
            Step::Perform {
                state: LoginState::Recording { user_id, role, refresh_token },
                action: Action::InsertRefreshToken(NewRefreshToken { token_value, user_id }),
            }
        },
        (LoginState::Recording { user_id, role, refresh_token }, Event::Written(Ok(_))) => {
            Step::Perform {
                state: LoginState::SigningAccessToken { refresh_token },
                action: Action::CreateAccessToken { user_id, role },
            }
        },
        (LoginState::SigningAccessToken { refresh_token }, Event::Text(access_token)) => {
            let cookie = AccessCookie::issue(access_token.clone());
            Step::Respond(
                Reply::with_cookie(
                    LoginResponse {
                        success: true,
                        login_failed: false,
                        access_token,
                        refresh_token,
                        message: "success".to_owned(),
                    },
                    cookie,
                ),
            )
        },
        _ => Step::Respond(Reply::server_error(StatusCode::InternalServerError)),
    }
}

} // verus!
