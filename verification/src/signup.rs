//! Sign-up: create an account unless its email is already taken.

use vstd::prelude::*;
use crate::exchange::{Action, ActionView, Event, EventView, Step, StepView};
use crate::http::{plain_reply, server_error_reply, Reply, StatusCode};
use crate::records::{NewUser, NewUserView};
use crate::validation::{credentials_verdict, validate_credentials, Violations};

verus! {

/// The body of a sign-up request.
#[derive(Debug, Clone, PartialEq, Eq)]
pub struct SignupParam {
    pub email: String,
    pub password: String,
    pub nickname: String,
}

/// The mathematical value of a [`SignupParam`].
pub struct SignupParamView {
    pub email: Seq<char>,
    pub password: Seq<char>,
    pub nickname: Seq<char>,
}

impl View for SignupParam {
    type V = SignupParamView;

    open spec fn view(&self) -> SignupParamView {
        SignupParamView {
            email: self.email@,
            password: self.password@,
            nickname: self.nickname@,
        }
    }
}

/// The payload of a sign-up reply.
#[derive(Debug, Clone, PartialEq, Eq)]
pub struct SignupResponse {
    pub success: bool,
    pub email_duplicated: bool,
    pub message: String,
}

/// The mathematical value of a [`SignupResponse`].
pub struct SignupResponseView {
    pub success: bool,
    pub email_duplicated: bool,
    pub message: Seq<char>,
}

impl View for SignupResponse {
    type V = SignupResponseView;

    open spec fn view(&self) -> SignupResponseView {
        SignupResponseView {
            success: self.success,
            email_duplicated: self.email_duplicated,
            message: self.message@,
        }
    }
}

/// The payload that reports a created account.
pub open spec fn signup_created() -> SignupResponseView {
    SignupResponseView { success: true, email_duplicated: false, message: Seq::empty() }
}

/// The payload that turns a taken email down.
pub open spec fn signup_duplicate() -> SignupResponseView {
    SignupResponseView {
        success: false,
        email_duplicated: true,
        message: "email already exists"@,
    }
}

/// Where a sign-up stands between two events.
#[derive(Debug, Clone, PartialEq, Eq)]
pub enum SignupState {
    /// The request has arrived.
    Received(SignupParam),
    /// The connection has been asked for.
    AwaitingConnection(SignupParam),
    /// The user store is looking for the email.
    CheckingEmail(SignupParam),
    /// The email is free; a salt is being drawn.
    AwaitingSalt(SignupParam),
    /// The salted password is being hashed.
    AwaitingDigest { email: String, salt: String, nickname: String },
    /// The user is being inserted.
    Inserting,
}

/// The mathematical value of a [`SignupState`].
pub enum SignupStateView {
    Received(SignupParamView),
    AwaitingConnection(SignupParamView),
    CheckingEmail(SignupParamView),
    AwaitingSalt(SignupParamView),
    AwaitingDigest { email: Seq<char>, salt: Seq<char>, nickname: Seq<char> },
    Inserting,
}

impl View for SignupState {
    type V = SignupStateView;

    open spec fn view(&self) -> SignupStateView {
        match self {
            SignupState::Received(param) => SignupStateView::Received(param@),
            SignupState::AwaitingConnection(param) => SignupStateView::AwaitingConnection(param@),
            SignupState::CheckingEmail(param) => SignupStateView::CheckingEmail(param@),
            SignupState::AwaitingSalt(param) => SignupStateView::AwaitingSalt(param@),
            SignupState::AwaitingDigest { email, salt, nickname } => {
                SignupStateView::AwaitingDigest { email: email@, salt: salt@, nickname: nickname@ }
            },
            SignupState::Inserting => SignupStateView::Inserting,
        }
    }
}

/// The sign-up decision table.
///
/// The email is checked before anything is written. A free email leads to a
/// fresh salt, the digest of the password followed by that salt, and the
/// insertion of the user with both. A taken email is answered with status
/// 200 and the duplicate payload. A connection that cannot be taken, a store
/// that fails, and an event that does not answer what was asked all end the
/// request with status 500 and the generic payload.
pub open spec fn signup_step(state: SignupStateView, event: EventView) -> StepView<
    SignupStateView,
    SignupResponseView,
> {
    match (state, event) {
        (SignupStateView::Received(param), EventView::Start) => StepView::Perform {
            state: SignupStateView::AwaitingConnection(param),
            action: ActionView::AcquireConnection,
        },
        (
            SignupStateView::AwaitingConnection(param),
            EventView::Connection { acquired: true },
        ) => StepView::Perform {
            state: SignupStateView::CheckingEmail(param),
            action: ActionView::EmailExists { email: param.email },
        },
        (SignupStateView::CheckingEmail(param), EventView::Flag(Ok(true))) => StepView::Respond(
            plain_reply(StatusCode::Success, signup_duplicate()),
        ),
        (SignupStateView::CheckingEmail(param), EventView::Flag(Ok(false))) => StepView::Perform {
            state: SignupStateView::AwaitingSalt(param),
            action: ActionView::GenerateSalt,
        },
        (SignupStateView::AwaitingSalt(param), EventView::Text(salt)) => StepView::Perform {
            state: SignupStateView::AwaitingDigest {
                email: param.email,
                salt,
                nickname: param.nickname,
            },
            action: ActionView::Hash { plaintext: param.password + salt },
        },
        (
            SignupStateView::AwaitingDigest { email, salt, nickname },
            EventView::Text(digest),
        ) => StepView::Perform {
            state: SignupStateView::Inserting,
            action: ActionView::InsertUser(
                NewUserView { email, password_hash: digest, salt, nickname },
            ),
        },
        (SignupStateView::Inserting, EventView::Written(Ok(_))) => StepView::Respond(
            plain_reply(StatusCode::Success, signup_created()),
        ),
        _ => StepView::Respond(server_error_reply(StatusCode::InternalServerError)),
    }
}

impl SignupParam {
    /// Checks the body against the rules for email and password.
    pub fn validate(&self) -> (result: Result<(), Violations>)
        ensures
            result == credentials_verdict(self.email@, self.password@),
    {
        validate_credentials(self.email.as_str(), self.password.as_str())
    }
}

impl SignupState {
    /// The state in which a sign-up starts; its first event is
    /// [`Event::Start`].
    pub fn new(param: SignupParam) -> (state: SignupState)
        ensures
            state@ == SignupStateView::Received(param@),
    {
        SignupState::Received(param)
    }
}

/// Advances a sign-up by one event, as [`signup_step`] lays down.
pub fn signup(state: SignupState, event: Event) -> (step: Step<SignupState, SignupResponse>)
    ensures
        step@ == signup_step(state@, event@),
{
    match (state, event) {
        (SignupState::Received(param), Event::Start) => Step::Perform {
            state: SignupState::AwaitingConnection(param),
            action: Action::AcquireConnection,
        },
        (SignupState::AwaitingConnection(param), Event::Connection { acquired: true }) => {
            let email = param.email.clone();
            Step::Perform {
                state: SignupState::CheckingEmail(param),
                action: Action::EmailExists { email },
            }
        },
        (SignupState::CheckingEmail(_), Event::Flag(Ok(true))) => Step::Respond(
            Reply::plain(
                StatusCode::Success,
                SignupResponse {
                    success: false,
                    email_duplicated: true,
                    message: "email already exists".to_owned(),
                },
            ),
        ),
        (SignupState::CheckingEmail(param), Event::Flag(Ok(false))) => Step::Perform {
            state: SignupState::AwaitingSalt(param),
            action: Action::GenerateSalt,
        },
        (SignupState::AwaitingSalt(param), Event::Text(salt)) => {
            let plaintext = param.password.concat(salt.as_str());
            Step::Perform {
                state: SignupState::AwaitingDigest {
                    email: param.email,
                    salt,
                    nickname: param.nickname,
                },
                action: Action::Hash { plaintext },
            }
        },
        (SignupState::AwaitingDigest { email, salt, nickname }, Event::Text(digest)) => {
            Step::Perform {
                state: SignupState::Inserting,
                action: Action::InsertUser(
                    NewUser { email, password_hash: digest, salt, nickname },
                ),
            }
        },
        (SignupState::Inserting, Event::Written(Ok(_))) => Step::Respond(
            Reply::plain(
                StatusCode::Success,
                SignupResponse { success: true, email_duplicated: false, message: String::new() },
            ),
        ),
        _ => Step::Respond(Reply::server_error(StatusCode::InternalServerError)),
    }
}

} // verus!
