//! The vocabulary of a conversation: what a handler asks of its
//! collaborators, what they answer, and what a handler decides next.

use vstd::prelude::*;
use crate::http::{Reply, ReplyView};
use crate::records::{
    user_views, NewRefreshToken, NewRefreshTokenView, NewUser, NewUserView, User, UserView,
};

verus! {

/// Work that a handler asks its caller to carry out.
#[derive(Debug, Clone, PartialEq, Eq)]
pub enum Action {
    /// Take exclusive hold of the shared connection.
    AcquireConnection,
    /// Ask the user store whether any user has this email.
    EmailExists { email: String },
    /// Draw a fresh salt.
    GenerateSalt,
    /// Hash this text with the password hasher.
    Hash { plaintext: String },
    /// Insert this user.
    InsertUser(NewUser),
    /// Load the active users with this email.
    FindActiveUsersByEmail { email: String },
    /// Load the users with this id.
    FindUserById { id: i64 },
    /// Sign a refresh token for this user.
    CreateRefreshToken { user_id: i64, role: String },
    /// Sign an access token for this user.
    CreateAccessToken { user_id: i64, role: String },
    /// Record this refresh token as live.
    InsertRefreshToken(NewRefreshToken),
    /// In one transaction, mark every live record of this token dead and
    /// stamp it with `dead_utc`.
    RevokeRefreshToken { token_value: String, dead_utc: i64 },
    /// Ask the token store whether a live record of this token exists.
    RefreshTokenIsLive { token_value: String },
    /// Check signature and expiry of this token and extract its user id.
    VerifyRefreshToken { token: String },
    /// Read the clock: the whole seconds since the Unix epoch.
    ReadClock,
}

/// The mathematical value of an [`Action`].
pub enum ActionView {
    AcquireConnection,
    EmailExists { email: Seq<char> },
    GenerateSalt,
    Hash { plaintext: Seq<char> },
    InsertUser(NewUserView),
    FindActiveUsersByEmail { email: Seq<char> },
    FindUserById { id: i64 },
    CreateRefreshToken { user_id: i64, role: Seq<char> },
    CreateAccessToken { user_id: i64, role: Seq<char> },
    InsertRefreshToken(NewRefreshTokenView),
    RevokeRefreshToken { token_value: Seq<char>, dead_utc: i64 },
    RefreshTokenIsLive { token_value: Seq<char> },
    VerifyRefreshToken { token: Seq<char> },
    ReadClock,
}

impl View for Action {
    type V = ActionView;

    open spec fn view(&self) -> ActionView {
        match self {
            Action::AcquireConnection => ActionView::AcquireConnection,
            Action::EmailExists { email } => ActionView::EmailExists { email: email@ },
            Action::GenerateSalt => ActionView::GenerateSalt,
            Action::Hash { plaintext } => ActionView::Hash { plaintext: plaintext@ },
            Action::InsertUser(user) => ActionView::InsertUser(user@),
            Action::FindActiveUsersByEmail { email } => ActionView::FindActiveUsersByEmail {
                email: email@,
            },
            Action::FindUserById { id } => ActionView::FindUserById { id: *id },
            Action::CreateRefreshToken { user_id, role } => ActionView::CreateRefreshToken {
                user_id: *user_id,
                role: role@,
            },
            Action::CreateAccessToken { user_id, role } => ActionView::CreateAccessToken {
                user_id: *user_id,
                role: role@,
            },
            Action::InsertRefreshToken(token) => ActionView::InsertRefreshToken(token@),
            Action::RevokeRefreshToken { token_value, dead_utc } => ActionView::RevokeRefreshToken {
                token_value: token_value@,
                dead_utc: *dead_utc,
            },
            Action::RefreshTokenIsLive { token_value } => ActionView::RefreshTokenIsLive {
                token_value: token_value@,
            },
            Action::VerifyRefreshToken { token } => ActionView::VerifyRefreshToken {
                token: token@,
            },
            Action::ReadClock => ActionView::ReadClock,
        }
    }
}

/// What came of the action that a handler last asked for. A store that fails
/// answers with the text of its error.
#[derive(Debug, PartialEq, Eq)]
pub enum Event {
    /// The request has arrived; nothing has been asked yet.
    Start,
    /// Whether the connection could be taken.
    Connection { acquired: bool },
    /// Answer to a yes-or-no query of a store.
    Flag(Result<bool, String>),
    /// Answer to a query for users, in the store's order.
    Users(Result<Vec<User>, String>),
    /// Outcome of an insertion or of the revoking transaction.
    Written(Result<(), String>),
    /// A salt, a digest or a signed token.
    Text(String),
    /// The user id in a refresh token, where the token verifies.
    Verified(Option<i64>),
    /// A reading of the clock: the whole seconds since the Unix epoch.
    Time { seconds: u64 },
}

/// The mathematical value of an [`Event`].
pub enum EventView {
    Start,
    Connection { acquired: bool },
    Flag(Result<bool, Seq<char>>),
    Users(Result<Seq<UserView>, Seq<char>>),
    Written(Result<(), Seq<char>>),
    Text(Seq<char>),
    Verified(Option<i64>),
    Time { seconds: u64 },
}

impl View for Event {
    type V = EventView;

    open spec fn view(&self) -> EventView {
        match self {
            Event::Start => EventView::Start,
            Event::Connection { acquired } => EventView::Connection { acquired: *acquired },
            Event::Flag(Ok(flag)) => EventView::Flag(Ok(*flag)),
            Event::Flag(Err(error)) => EventView::Flag(Err(error@)),
            Event::Users(Ok(users)) => EventView::Users(Ok(user_views(users@))),
            Event::Users(Err(error)) => EventView::Users(Err(error@)),
            Event::Written(Ok(_)) => EventView::Written(Ok(())),
            Event::Written(Err(error)) => EventView::Written(Err(error@)),
            Event::Text(text) => EventView::Text(text@),
            Event::Verified(user_id) => EventView::Verified(*user_id),
            Event::Time { seconds } => EventView::Time { seconds: *seconds },
        }
    }
}

/// A handler's decision: more work for the caller, or the reply that ends
/// the request.
#[derive(Debug, Clone, PartialEq, Eq)]
pub enum Step<S, P> {
    /// Carry out `action` and come back with its event and `state`.
    Perform { state: S, action: Action },
    /// The request is over.
    Respond(Reply<P>),
}

/// The mathematical value of a [`Step`].
pub enum StepView<S, P> {
    Perform { state: S, action: ActionView },
    Respond(ReplyView<P>),
}

impl<S: View, P: View> View for Step<S, P> {
    type V = StepView<S::V, P::V>;

    open spec fn view(&self) -> StepView<S::V, P::V> {
        match self {
            Step::Perform { state, action } => StepView::Perform { state: state@, action: action@ },
            Step::Respond(reply) => StepView::Respond(reply@),
        }
    }
}

} // verus!
