//! The rows that the handlers read from the user store and hand to the
//! stores for insertion.

use vstd::prelude::*;

verus! {

/// A user as the user store returns it.
#[derive(Debug, Clone, PartialEq, Eq)]
pub struct User {
    pub id: i64,
    pub email: String,
    pub password_hash: String,
    pub salt: String,
    pub nickname: String,
    pub role: String,
    pub active: bool,
}

/// The mathematical value of a [`User`].
pub struct UserView {
    pub id: i64,
    pub email: Seq<char>,
    pub password_hash: Seq<char>,
    pub salt: Seq<char>,
    pub nickname: Seq<char>,
    pub role: Seq<char>,
    pub active: bool,
}

impl View for User {
    type V = UserView;

    open spec fn view(&self) -> UserView {
        UserView {
            id: self.id,
            email: self.email@,
            password_hash: self.password_hash@,
            salt: self.salt@,
            nickname: self.nickname@,
            role: self.role@,
            active: self.active,
        }
    }
}

/// The values of a list of users, in order.
pub open spec fn user_views(users: Seq<User>) -> Seq<UserView> {
    Seq::new(users.len(), |i: int| users[i]@)
}

/// A user to be inserted: the store assigns the id, the role and the active
/// flag.
#[derive(Debug, Clone, PartialEq, Eq)]
pub struct NewUser {
    pub email: String,
    pub password_hash: String,
    pub salt: String,
    pub nickname: String,
}

/// The mathematical value of a [`NewUser`].
pub struct NewUserView {
    pub email: Seq<char>,
    pub password_hash: Seq<char>,
    pub salt: Seq<char>,
    pub nickname: Seq<char>,
}

impl View for NewUser {
    type V = NewUserView;

    open spec fn view(&self) -> NewUserView {
        NewUserView {
            email: self.email@,
            password_hash: self.password_hash@,
            salt: self.salt@,
            nickname: self.nickname@,
        }
    }
}

/// A refresh token to be recorded as live for its user.
#[derive(Debug, Clone, PartialEq, Eq)]
pub struct NewRefreshToken {
    pub token_value: String,
    pub user_id: i64,
}

/// The mathematical value of a [`NewRefreshToken`].
pub struct NewRefreshTokenView {
    pub token_value: Seq<char>,
    pub user_id: i64,
}

impl View for NewRefreshToken {
    type V = NewRefreshTokenView;

    open spec fn view(&self) -> NewRefreshTokenView {
        NewRefreshTokenView { token_value: self.token_value@, user_id: self.user_id }
    }
}

} // verus!
