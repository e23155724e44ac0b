//! Logout: revoke a refresh token and clear the access-token cookie.

use vstd::prelude::*;
use crate::clock::{timestamp_from_seconds, timestamp_of};
use crate::exchange::{Action, ActionView, Event, EventView, Step, StepView};
use crate::http::{
    cleared_cookie, reply_with_cookie, server_error_reply, AccessCookie, Reply, StatusCode,
};

verus! {

/// The query of a logout request.
#[derive(Debug, Clone, PartialEq, Eq)]
pub struct LogoutParam {
    pub refresh_token: String,
}

/// The mathematical value of a [`LogoutParam`].
pub struct LogoutParamView {
    pub refresh_token: Seq<char>,
}

impl View for LogoutParam {
    type V = LogoutParamView;

    open spec fn view(&self) -> LogoutParamView {
        LogoutParamView { refresh_token: self.refresh_token@ }
    }
}

/// The payload of a logout reply.
#[derive(Debug, Clone, PartialEq, Eq)]
pub struct LogoutResponse {
    pub success: bool,
    pub message: String,
}

/// The mathematical value of a [`LogoutResponse`].
pub struct LogoutResponseView {
    pub success: bool,
    pub message: Seq<char>,
}

impl View for LogoutResponse {
    type V = LogoutResponseView;

    open spec fn view(&self) -> LogoutResponseView {
        LogoutResponseView { success: self.success, message: self.message@ }
    }
}

/// The payload that confirms a logout.
pub open spec fn logout_done() -> LogoutResponseView {
    LogoutResponseView { success: true, message: "logout success"@ }
}

/// Where a logout stands between two events.
#[derive(Debug, Clone, PartialEq, Eq)]
pub enum LogoutState {
    /// The request has arrived.
    Received(LogoutParam),
    /// The connection has been asked for.
    AwaitingConnection(LogoutParam),
    /// The connection is held; the clock is being read.
    ReadingClock(LogoutParam),
    /// The token store is running the revoking transaction.
    Revoking,
}

/// The mathematical value of a [`LogoutState`].
pub enum LogoutStateView {
    Received(LogoutParamView),
    AwaitingConnection(LogoutParamView),
    ReadingClock(LogoutParamView),
    Revoking,
}

impl View for LogoutState {
    type V = LogoutStateView;

    open spec fn view(&self) -> LogoutStateView {
        match self {
            LogoutState::Received(param) => LogoutStateView::Received(param@),
            LogoutState::AwaitingConnection(param) => LogoutStateView::AwaitingConnection(param@),
            LogoutState::ReadingClock(param) => LogoutStateView::ReadingClock(param@),
            LogoutState::Revoking => LogoutStateView::Revoking,
        }
    }
}

/// The logout decision table.
///
/// With the connection in hand the clock is read, once, and the token store
/// is asked to revoke the token as of that reading. When the transaction
/// has gone through, whether or not it found a live record, the reply has
/// status 200, confirms the logout and clears the access-token cookie. A
/// connection that cannot be taken, a transaction that fails and an event
/// that does not answer what was asked all end the request with status 500
/// and the generic payload, and set no cookie: what the store said when it
/// failed is not passed on.
pub open spec fn logout_step(state: LogoutStateView, event: EventView) -> StepView<
    LogoutStateView,
    LogoutResponseView,
> {
    match (state, event) {
        (LogoutStateView::Received(param), EventView::Start) => StepView::Perform {
            state: LogoutStateView::AwaitingConnection(param),
            action: ActionView::AcquireConnection,
        },
        (
            LogoutStateView::AwaitingConnection(param),
            EventView::Connection { acquired: true },
        ) => StepView::Perform {
            state: LogoutStateView::ReadingClock(param),
            action: ActionView::ReadClock,
        },
        (LogoutStateView::ReadingClock(param), EventView::Time { seconds }) => StepView::Perform {
            state: LogoutStateView::Revoking,
            action: ActionView::RevokeRefreshToken {
                token_value: param.refresh_token,
                dead_utc: timestamp_of(seconds),
            },
        },
        (LogoutStateView::Revoking, EventView::Written(Ok(_))) => StepView::Respond(
            reply_with_cookie(logout_done(), cleared_cookie()),
        ),
        _ => StepView::Respond(server_error_reply(StatusCode::InternalServerError)),
    }
}

impl LogoutState {
    /// The state in which a logout starts; its first event is
    /// [`Event::Start`].
    pub fn new(param: LogoutParam) -> (state: LogoutState)
        ensures
            state@ == LogoutStateView::Received(param@),
    {
        LogoutState::Received(param)
    }
}

/// Advances a logout by one event, as [`logout_step`] lays down.
pub fn logout(state: LogoutState, event: Event) -> (step: Step<LogoutState, LogoutResponse>)
    ensures
        step@ == logout_step(state@, event@),
{
    match (state, event) {
        (LogoutState::Received(param), Event::Start) => Step::Perform {
            state: LogoutState::AwaitingConnection(param),
            action: Action::AcquireConnection,
        },
        (LogoutState::AwaitingConnection(param), Event::Connection { acquired: true }) => {
            Step::Perform { state: LogoutState::ReadingClock(param), action: Action::ReadClock }
        },
        (LogoutState::ReadingClock(param), Event::Time { seconds }) => Step::Perform {
            state: LogoutState::Revoking,
            action: Action::RevokeRefreshToken {
                token_value: param.refresh_token,
                dead_utc: timestamp_from_seconds(seconds),
            },
        },
        (LogoutState::Revoking, Event::Written(Ok(_))) => Step::Respond(
            Reply::with_cookie(
                LogoutResponse { success: true, message: "logout success".to_owned() },
                AccessCookie::clear(),
            ),
        ),
        _ => Step::Respond(Reply::server_error(StatusCode::InternalServerError)),
    }
}

} // verus!
