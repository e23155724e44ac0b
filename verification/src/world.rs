//! A model of what stands on the other side of a conversation: the two
//! stores as tables, and the collaborators as the answers that a faithful
//! set of them gives.
//!
//! Nothing here runs. The model says what the actions of
//! [`crate::exchange::Action`] mean, so that the guarantees of the handlers
//! can be stated and proved against it.

use vstd::prelude::*;
use crate::exchange::{ActionView, EventView};
use crate::records::{NewRefreshTokenView, NewUserView, UserView};

verus! {

/// A row of the refresh-token store. A record is live until it is revoked
/// and carries the time of its revocation from then on.
pub struct TokenRecord {
    pub token_value: Seq<char>,
    pub user_id: i64,
    pub dead_utc: Option<i64>,
}

impl TokenRecord {
    /// Whether the record still authorises a refresh.
    pub open spec fn live(self) -> bool {
        self.dead_utc is None
    }

    /// The record after a revocation of `token_value` at `at`: a live record
    /// of that token dies, every other record stays as it is.
    pub open spec fn revoked(self, token_value: Seq<char>, at: i64) -> TokenRecord {
        if self.live() && self.token_value == token_value {
            TokenRecord { dead_utc: Some(at), ..self }
        } else {
            self
        }
    }
}

/// The user store and the refresh-token store, each as the sequence of its
/// rows in the order of insertion.
pub struct Stores {
    pub users: Seq<UserView>,
    pub tokens: Seq<TokenRecord>,
}

impl Stores {
    /// Whether some user, active or not, has this email.
    pub open spec fn email_taken(self, email: Seq<char>) -> bool {
        exists|i: int| 0 <= i < self.users.len() && (#[trigger] self.users[i]).email == email
    }

    /// The number of users with this email.
    pub open spec fn users_with_email(self, email: Seq<char>) -> nat {
        self.users.filter(|user: UserView| user.email == email).len()
    }

    /// The active users with this email, in the store's order.
    pub open spec fn active_users(self, email: Seq<char>) -> Seq<UserView> {
        self.users.filter(|user: UserView| user.email == email && user.active)
    }

    /// The users with this id, in the store's order.
    pub open spec fn users_by_id(self, id: i64) -> Seq<UserView> {
        self.users.filter(|user: UserView| user.id == id)
    }

    /// Whether some user has this id.
    pub open spec fn has_user(self, id: i64) -> bool {
        exists|i: int| 0 <= i < self.users.len() && (#[trigger] self.users[i]).id == id
    }

    /// Whether the token store holds a live record of exactly this token.
    pub open spec fn token_live(self, token_value: Seq<char>) -> bool {
        exists|i: int|
            0 <= i < self.tokens.len() && (#[trigger] self.tokens[i]).live()
                && self.tokens[i].token_value == token_value
    }

    /// Whether the token store holds a record, live or dead, of this token.
    pub open spec fn token_recorded(self, token_value: Seq<char>) -> bool {
        exists|i: int|
            0 <= i < self.tokens.len() && (#[trigger] self.tokens[i]).token_value == token_value
    }

    /// The stores after the insertion of `user`.
    pub open spec fn with_user(self, user: UserView) -> Stores {
        Stores { users: self.users.push(user), ..self }
    }

    /// The stores after `token` has been recorded as live.
    pub open spec fn with_token(self, token: NewRefreshTokenView) -> Stores {
        Stores {
            tokens: self.tokens.push(
                TokenRecord {
                    token_value: token.token_value,
                    user_id: token.user_id,
                    dead_utc: None,
                },
            ),
            ..self
        }
    }

    /// The stores after the revocation of `token_value` at `at`.
    pub open spec fn with_revoked(self, token_value: Seq<char>, at: i64) -> Stores {
        Stores {
            tokens: Seq::new(
                self.tokens.len(),
                |i: int| self.tokens[i].revoked(token_value, at),
            ),
            ..self
        }
    }

    /// Whether `later` can come of these stores. Rows are only ever added.
    /// A user never changes. A token record keeps its token and its user,
    /// and a dead record stays exactly as it is.
    pub open spec fn leads_to(self, later: Stores) -> bool {
        &&& self.users.len() <= later.users.len()
        &&& forall|i: int| 0 <= i < self.users.len() ==> #[trigger] later.users[i] == self.users[i]
        &&& self.tokens.len() <= later.tokens.len()
        &&& forall|k: int|
            0 <= k < self.tokens.len() ==> {
                let before = self.tokens[k];
                let after = #[trigger] later.tokens[k];
                &&& after.token_value == before.token_value
                &&& after.user_id == before.user_id
                &&& !before.live() ==> after == before
            }
    }

    /// Whether the token of every live record is the token of that record
    /// alone: a live token value matches exactly one record.
    pub open spec fn live_tokens_unique(self) -> bool {
        forall|i: int, j: int|
            0 <= i < self.tokens.len() && 0 <= j < self.tokens.len() && i != j && (
            #[trigger] self.tokens[i]).live() ==> self.tokens[i].token_value != (
            #[trigger] self.tokens[j]).token_value
    }

    /// Whether no two users share an id.
    pub open spec fn user_ids_unique(self) -> bool {
        forall|i: int, j: int|
            0 <= i < j < self.users.len() ==> (#[trigger] self.users[i]).id != (
            #[trigger] self.users[j]).id
    }

    /// What the data model asks of the rows that the handlers write on
    /// their own account: no two users share an email, and every token
    /// record belongs to a user that exists. That a live token matches one
    /// record only is [`Stores::live_tokens_unique`]; it rests on the token
    /// service as well.
    pub open spec fn consistent(self) -> bool {
        &&& forall|i: int, j: int|
            0 <= i < j < self.users.len() ==> (#[trigger] self.users[i]).email != (
            #[trigger] self.users[j]).email
        &&& forall|k: int|
            0 <= k < self.tokens.len() ==> self.has_user((#[trigger] self.tokens[k]).user_id)
    }
}

/// How the collaborators behave during one conversation.
///
/// The fields fix everything that the handlers cannot know in advance:
/// whether the connection can be taken, which store operations fail and
/// with what error, the salt that is drawn, the hasher, the tokens that the
/// token service signs and its verdict on a token, what the user store
/// fills in for a new user, and what the clock shows. A guarantee that
/// holds for every value of this type holds whatever the collaborators do.
pub struct Collaborators {
    pub connection_available: bool,
    pub store_error: spec_fn(ActionView) -> Option<Seq<char>>,
    pub salt: Seq<char>,
    pub hash: spec_fn(Seq<char>) -> Seq<char>,
    pub refresh_token: spec_fn(i64, Seq<char>) -> Seq<char>,
    pub access_token: spec_fn(i64, Seq<char>) -> Seq<char>,
    pub verify: spec_fn(Seq<char>) -> Option<i64>,
    pub assigned_user_id: i64,
    pub assigned_role: Seq<char>,
    pub clock_seconds: u64,
}

impl Collaborators {
    /// Whether the store fails on `action`.
    pub open spec fn fails(self, action: ActionView) -> bool {
        (self.store_error)(action) is Some
    }

    /// Whether every token that the token service signs has some text.
    pub open spec fn signs_nonempty_tokens(self) -> bool {
        &&& forall|user_id: i64, role: Seq<char>|
            (#[trigger] (self.access_token)(user_id, role)).len() > 0
        &&& forall|user_id: i64, role: Seq<char>|
            (#[trigger] (self.refresh_token)(user_id, role)).len() > 0
    }

    /// Whether the connection can be taken and no store operation fails.
    pub open spec fn dependable(self) -> bool {
        &&& self.connection_available
        &&& forall|action: ActionView| !#[trigger] self.fails(action)
    }

    /// The row that the user store makes of `user`: it assigns the id and
    /// the role, and new users are active.
    pub open spec fn admitted(self, user: NewUserView) -> UserView {
        UserView {
            id: self.assigned_user_id,
            email: user.email,
            password_hash: user.password_hash,
            salt: user.salt,
            nickname: user.nickname,
            role: self.assigned_role,
            active: true,
        }
    }

    /// The result of a store operation that may fail: the error, and the
    /// stores untouched, where the store fails on `action`; otherwise the
    /// given event and stores.
    pub open spec fn attempt(
        self,
        action: ActionView,
        stores: Stores,
        event: EventView,
        after: Stores,
        failure: spec_fn(Seq<char>) -> EventView,
    ) -> (EventView, Stores) {
        match (self.store_error)(action) {
            Some(error) => (failure(error), stores),
            None => (event, after),
        }
    }

    /// The event with which the collaborators answer `action`, and the
    /// stores that they leave behind.
    ///
    /// Queries leave the stores as they are. An insertion appends one row. A
    /// revocation is one transaction: it marks every live record of the
    /// token dead, or fails and changes nothing. The hasher, the token
    /// service and the clock do not touch the stores.
    pub open spec fn answer(self, stores: Stores, action: ActionView) -> (EventView, Stores) {
        match action {
            ActionView::AcquireConnection => (
                EventView::Connection { acquired: self.connection_available },
                stores,
            ),
            ActionView::EmailExists { email } => self.attempt(
                action,
                stores,
                EventView::Flag(Ok(stores.email_taken(email))),
                stores,
                |error: Seq<char>| EventView::Flag(Err(error)),
            ),
            ActionView::GenerateSalt => (EventView::Text(self.salt), stores),
            ActionView::Hash { plaintext } => (EventView::Text((self.hash)(plaintext)), stores),
            ActionView::InsertUser(user) => self.attempt(
                action,
                stores,
                EventView::Written(Ok(())),
                stores.with_user(self.admitted(user)),
                |error: Seq<char>| EventView::Written(Err(error)),
            ),
            ActionView::FindActiveUsersByEmail { email } => self.attempt(
                action,
                stores,
                EventView::Users(Ok(stores.active_users(email))),
                stores,
                |error: Seq<char>| EventView::Users(Err(error)),
            ),
            ActionView::FindUserById { id } => self.attempt(
                action,
                stores,
                EventView::Users(Ok(stores.users_by_id(id))),
                stores,
                |error: Seq<char>| EventView::Users(Err(error)),
            ),
            ActionView::CreateRefreshToken { user_id, role } => (
                EventView::Text((self.refresh_token)(user_id, role)),
                stores,
            ),
            ActionView::CreateAccessToken { user_id, role } => (
                EventView::Text((self.access_token)(user_id, role)),
                stores,
            ),
            ActionView::InsertRefreshToken(token) => self.attempt(
                action,
                stores,
                EventView::Written(Ok(())),
                stores.with_token(token),
                |error: Seq<char>| EventView::Written(Err(error)),
            ),
            ActionView::RevokeRefreshToken { token_value, dead_utc } => self.attempt(
                action,
                stores,
                EventView::Written(Ok(())),
                stores.with_revoked(token_value, dead_utc),
                |error: Seq<char>| EventView::Written(Err(error)),
            ),
            ActionView::RefreshTokenIsLive { token_value } => self.attempt(
                action,
                stores,
                EventView::Flag(Ok(stores.token_live(token_value))),
                stores,
                |error: Seq<char>| EventView::Flag(Err(error)),
            ),
            ActionView::VerifyRefreshToken { token } => (
                EventView::Verified((self.verify)(token)),
                stores,
            ),
            ActionView::ReadClock => (EventView::Time { seconds: self.clock_seconds }, stores),
        }
    }
}

} // verus!
