//! Refresh: trade a refresh token that is both recorded as live and
//! cryptographically valid for a new access token.

use vstd::prelude::*;
use crate::exchange::{Action, ActionView, Event, EventView, Step, StepView};
use crate::http::{
    issued_cookie, plain_reply, reply_with_cookie, server_error_reply, AccessCookie, Reply,
    StatusCode,
};

verus! {

/// The body of a refresh request.
#[derive(Debug, Clone, PartialEq, Eq)]
pub struct RefreshParam {
    pub refresh_token: String,
}

/// The mathematical value of a [`RefreshParam`].
pub struct RefreshParamView {
    pub refresh_token: Seq<char>,
}

impl View for RefreshParam {
    type V = RefreshParamView;

    open spec fn view(&self) -> RefreshParamView {
        RefreshParamView { refresh_token: self.refresh_token@ }
    }
}

/// The payload of a refresh reply.
#[derive(Debug, Clone, PartialEq, Eq)]
pub struct RefreshResponse {
    pub success: bool,
    pub expired: bool,
    pub access_token: String,
    pub message: String,
}

/// The mathematical value of a [`RefreshResponse`].
pub struct RefreshResponseView {
    pub success: bool,
    pub expired: bool,
    pub access_token: Seq<char>,
    pub message: Seq<char>,
}

impl View for RefreshResponse {
    type V = RefreshResponseView;

    open spec fn view(&self) -> RefreshResponseView {
        RefreshResponseView {
            success: self.success,
            expired: self.expired,
            access_token: self.access_token@,
            message: self.message@,
        }
    }
}

/// The payload that turns a token down as expired: one that the store does
/// not hold as live and one that does not verify look the same.
pub open spec fn refresh_expired() -> RefreshResponseView {
    RefreshResponseView {
        success: false,
        expired: true,
        access_token: Seq::empty(),
        message: "logout failed"@,
    }
}

/// The payload sent when the token's user is gone.
pub open spec fn refresh_user_missing() -> RefreshResponseView {
    RefreshResponseView {
        success: false,
        expired: false,
        access_token: Seq::empty(),
        message: "user not exists"@,
    }
}

/// The payload that hands the new access token out.
pub open spec fn refresh_granted(access_token: Seq<char>) -> RefreshResponseView {
    RefreshResponseView {
        success: true,
        expired: false,
        access_token,
        message: "refresh success"@,
    }
}

/// Where a refresh stands between two events.
#[derive(Debug, Clone, PartialEq, Eq)]
pub enum RefreshState {
    /// The request has arrived.
    Received(RefreshParam),
    /// The connection has been asked for.
    AwaitingConnection(RefreshParam),
    /// The token store is looking for a live record of the token.
    CheckingLiveness { refresh_token: String },
    /// The token service is verifying the token.
    Verifying,
    /// The user store is loading the token's user.
    LookingUp { user_id: i64 },
    /// The access token is being signed.
    SigningAccessToken,
}

/// The mathematical value of a [`RefreshState`].
pub enum RefreshStateView {
    Received(RefreshParamView),
    AwaitingConnection(RefreshParamView),
    CheckingLiveness { refresh_token: Seq<char> },
    Verifying,
    LookingUp { user_id: i64 },
    SigningAccessToken,
}

impl View for RefreshState {
    type V = RefreshStateView;

    open spec fn view(&self) -> RefreshStateView {
        match self {
            RefreshState::Received(param) => RefreshStateView::Received(param@),
            RefreshState::AwaitingConnection(param) => RefreshStateView::AwaitingConnection(
                param@,
            ),
            RefreshState::CheckingLiveness { refresh_token } => RefreshStateView::CheckingLiveness {
                refresh_token: refresh_token@,
            },
            RefreshState::Verifying => RefreshStateView::Verifying,
            RefreshState::LookingUp { user_id } => RefreshStateView::LookingUp {
                user_id: *user_id,
            },
            RefreshState::SigningAccessToken => RefreshStateView::SigningAccessToken,
        }
    }
}

/// The refresh decision table.
///
/// A token passes two checks, in this order: the store must hold a live
/// record of exactly this token, and the token service must verify it. A
/// token that fails either is answered with status 200 and the expired
/// payload. The user named in a verified token is then loaded; if there is
/// none the reply has status 200 and says so, otherwise an access token is
/// signed for the first such user's role, and the reply carries it and sets
/// the access-token cookie. A failed liveness query is answered with status
/// 500 and the generic payload, a failed user lookup with the generic
/// payload under status 200; a connection that cannot be taken and an event
/// that does not answer what was asked, with status 500 and the generic
/// payload.
pub open spec fn refresh_step(state: RefreshStateView, event: EventView) -> StepView<
    RefreshStateView,
    RefreshResponseView,
> {
    match (state, event) {
        (RefreshStateView::Received(param), EventView::Start) => StepView::Perform {
            state: RefreshStateView::AwaitingConnection(param),
            action: ActionView::AcquireConnection,
        },
        (
            RefreshStateView::AwaitingConnection(param),
            EventView::Connection { acquired: true },
        ) => StepView::Perform {
            state: RefreshStateView::CheckingLiveness { refresh_token: param.refresh_token },
            action: ActionView::RefreshTokenIsLive { token_value: param.refresh_token },
        },
        (
            RefreshStateView::CheckingLiveness { refresh_token },
            EventView::Flag(Ok(true)),
        ) => StepView::Perform {
            state: RefreshStateView::Verifying,
            action: ActionView::VerifyRefreshToken { token: refresh_token },
        },
        (
            RefreshStateView::CheckingLiveness { refresh_token },
            EventView::Flag(Ok(false)),
        ) => StepView::Respond(plain_reply(StatusCode::Success, refresh_expired())),
        (RefreshStateView::Verifying, EventView::Verified(Some(user_id))) => StepView::Perform {
            state: RefreshStateView::LookingUp { user_id },
            action: ActionView::FindUserById { id: user_id },
        },
        (RefreshStateView::Verifying, EventView::Verified(None)) => StepView::Respond(
            plain_reply(StatusCode::Success, refresh_expired()),
        ),
        (RefreshStateView::LookingUp { user_id }, EventView::Users(Ok(users))) => {
            if users.len() == 0 {
                StepView::Respond(plain_reply(StatusCode::Success, refresh_user_missing()))
            } else {
                StepView::Perform {
                    state: RefreshStateView::SigningAccessToken,
                    action: ActionView::CreateAccessToken { user_id, role: users[0].role },
                }
            }
        },
        (RefreshStateView::LookingUp { user_id }, EventView::Users(Err(_))) => StepView::Respond(
            server_error_reply(StatusCode::Success),
        ),
        (RefreshStateView::SigningAccessToken, EventView::Text(access_token)) => {
            StepView::Respond(
                reply_with_cookie(refresh_granted(access_token), issued_cookie(access_token)),
            )
        },
        _ => StepView::Respond(server_error_reply(StatusCode::InternalServerError)),
    }
}

impl RefreshState {
    /// The state in which a refresh starts; its first event is
    /// [`Event::Start`].
    pub fn new(param: RefreshParam) -> (state: RefreshState)
        ensures
            state@ == RefreshStateView::Received(param@),
    {
        RefreshState::Received(param)
    }
}

impl RefreshResponse {
    /// The refusal of a token that is not live or does not verify.
    pub fn expired() -> (response: RefreshResponse)
        ensures
            response@ == refresh_expired(),
    {
        RefreshResponse {
            success: false,
            expired: true,
            access_token: String::new(),
            message: "logout failed".to_owned(),
        }
    }
}

/// Advances a refresh by one event, as [`refresh_step`] lays down.
pub fn refresh(state: RefreshState, event: Event) -> (step: Step<RefreshState, RefreshResponse>)
    ensures
        step@ == refresh_step(state@, event@),
{
    match (state, event) {
        (RefreshState::Received(param), Event::Start) => Step::Perform {
            state: RefreshState::AwaitingConnection(param),
            action: Action::AcquireConnection,
        },
        (RefreshState::AwaitingConnection(param), Event::Connection { acquired: true }) => {
            let token_value = param.refresh_token.clone();
            Step::Perform {
                state: RefreshState::CheckingLiveness { refresh_token: param.refresh_token },
                action: Action::RefreshTokenIsLive { token_value },
            }
        },
        (RefreshState::CheckingLiveness { refresh_token }, Event::Flag(Ok(true))) => {
            Step::Perform {
                state: RefreshState::Verifying,
                action: Action::VerifyRefreshToken { token: refresh_token },
            }
        },
        (RefreshState::CheckingLiveness { refresh_token: _ }, Event::Flag(Ok(false))) => {
            Step::Respond(Reply::plain(StatusCode::Success, RefreshResponse::expired()))
        },
        (RefreshState::Verifying, Event::Verified(Some(user_id))) => Step::Perform {
            state: RefreshState::LookingUp { user_id },
            action: Action::FindUserById { id: user_id },
        },
        (RefreshState::Verifying, Event::Verified(None)) => Step::Respond(
            Reply::plain(StatusCode::Success, RefreshResponse::expired()),
        ),
        (RefreshState::LookingUp { user_id }, Event::Users(Ok(users))) => {
            if users.len() == 0 {
                Step::Respond(
                    Reply::plain(
                        StatusCode::Success,
                        RefreshResponse {
                            success: false,
                            expired: false,
                            access_token: String::new(),
                            message: "user not exists".to_owned(),
                        },
                    ),
                )
            } else {
                Step::Perform {
                    state: RefreshState::SigningAccessToken,
                    action: Action::CreateAccessToken { user_id, role: users[0].role.clone() },
                }
            }
        },
        (RefreshState::LookingUp { user_id: _ }, Event::Users(Err(_))) => Step::Respond(
            Reply::server_error(StatusCode::Success),
        ),
        (RefreshState::SigningAccessToken, Event::Text(access_token)) => {
            let cookie = AccessCookie::issue(access_token.clone());
            Step::Respond(
                Reply::with_cookie(
                    RefreshResponse {
                        success: true,
                        expired: false,
                        access_token,
                        message: "refresh success".to_owned(),
                    },
                    cookie,
                ),
            )
        },
        _ => Step::Respond(Reply::server_error(StatusCode::InternalServerError)),
    }
}

} // verus!
