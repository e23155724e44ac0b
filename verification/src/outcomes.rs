//! Each conversation in closed form: the reply, the stores and the actions
//! that a whole request comes to, read off the stores and the collaborators
//! without playing the steps.

use vstd::prelude::*;
use crate::clock::timestamp_of;
use crate::conversation::{
    converse, login_conversation, logout_conversation, refresh_conversation, signup_conversation,
    Outcome,
};
use crate::exchange::ActionView;
use crate::http::{
    cleared_cookie, issued_cookie, plain_reply, reply_with_cookie, server_error_reply, StatusCode,
};
use crate::login::{
    login_granted, login_lookup_failed, login_refused, LoginParamView, LoginResponseView,
};
use crate::logout::{logout_done, LogoutParamView, LogoutResponseView};
use crate::records::{NewRefreshTokenView, NewUserView, UserView};
use crate::refresh::{
    refresh_expired, refresh_granted, refresh_user_missing, RefreshParamView, RefreshResponseView,
};
use crate::signup::{signup_created, signup_duplicate, SignupParamView, SignupResponseView};
use crate::world::{Collaborators, Stores};

verus! {

/// The user that a sign-up of `param` inserts: the password is stored as
/// the digest of the password followed by the salt that was drawn.
pub open spec fn signup_user(collaborators: Collaborators, param: SignupParamView) -> NewUserView {
    NewUserView {
        email: param.email,
        password_hash: (collaborators.hash)(param.password + collaborators.salt),
        salt: collaborators.salt,
        nickname: param.nickname,
    }
}

/// What a sign-up of `param` comes to.
pub open spec fn signup_outcome(
    stores: Stores,
    collaborators: Collaborators,
    param: SignupParamView,
) -> Outcome<SignupResponseView> {
    let acquire = ActionView::AcquireConnection;
    let check = ActionView::EmailExists { email: param.email };
    let hash = ActionView::Hash { plaintext: param.password + collaborators.salt };
    let user = signup_user(collaborators, param);
    let insert = ActionView::InsertUser(user);
    if !collaborators.connection_available {
        Outcome {
            reply: server_error_reply(StatusCode::InternalServerError),
            stores,
            actions: seq![acquire],
        }
    } else if collaborators.fails(check) {
        Outcome {
            reply: server_error_reply(StatusCode::InternalServerError),
            stores,
            actions: seq![acquire, check],
        }
    } else if stores.email_taken(param.email) {
        Outcome {
            reply: plain_reply(StatusCode::Success, signup_duplicate()),
            stores,
            actions: seq![acquire, check],
        }
    } else if collaborators.fails(insert) {
        Outcome {
            reply: server_error_reply(StatusCode::InternalServerError),
            stores,
            actions: seq![acquire, check, ActionView::GenerateSalt, hash, insert],
        }
    } else {
        Outcome {
            reply: plain_reply(StatusCode::Success, signup_created()),
            stores: stores.with_user(collaborators.admitted(user)),
            actions: seq![acquire, check, ActionView::GenerateSalt, hash, insert],
        }
    }
}

/// Every sign-up ends, and ends as [`signup_outcome`] says.
pub proof fn signup_conversation_ends(
    stores: Stores,
    collaborators: Collaborators,
    param: SignupParamView,
)
    ensures
        signup_conversation(stores, collaborators, param) == Some(
            signup_outcome(stores, collaborators, param),
        ),
{
    reveal_with_fuel(converse, 7);
    let played = signup_conversation(stores, collaborators, param);
    let expected = signup_outcome(stores, collaborators, param);
    assert(played is Some);
    assert(played->0.actions =~= expected.actions);
}

/// Whether `password` is the password of `user`: its digest, salted with
/// the user's salt, is the one that the user store holds.
pub open spec fn password_matches(
    collaborators: Collaborators,
    user: UserView,
    password: Seq<char>,
) -> bool {
    (collaborators.hash)(password + user.salt) == user.password_hash
}

/// What a login of `param` comes to.
pub open spec fn login_outcome(
    stores: Stores,
    collaborators: Collaborators,
    param: LoginParamView,
) -> Outcome<LoginResponseView> {
    let acquire = ActionView::AcquireConnection;
    let find = ActionView::FindActiveUsersByEmail { email: param.email };
    let found = stores.active_users(param.email);
    if !collaborators.connection_available {
        Outcome {
            reply: server_error_reply(StatusCode::InternalServerError),
            stores,
            actions: seq![acquire],
        }
    } else if collaborators.fails(find) {
        Outcome {
            reply: plain_reply(
                StatusCode::InternalServerError,
                login_lookup_failed((collaborators.store_error)(find)->0),
            ),
            stores,
            actions: seq![acquire, find],
        }
    } else if found.len() == 0 {
        Outcome {
            reply: plain_reply(StatusCode::Success, login_refused()),
            stores,
            actions: seq![acquire, find],
        }
    } else {
        let user = found[0];
        let hash = ActionView::Hash { plaintext: param.password + user.salt };
        let sign_refresh = ActionView::CreateRefreshToken { user_id: user.id, role: user.role };
        let refresh_token = (collaborators.refresh_token)(user.id, user.role);
        let record = NewRefreshTokenView { token_value: refresh_token, user_id: user.id };
        let insert = ActionView::InsertRefreshToken(record);
        let sign_access = ActionView::CreateAccessToken { user_id: user.id, role: user.role };
        let access_token = (collaborators.access_token)(user.id, user.role);
        if !password_matches(collaborators, user, param.password) {
            Outcome {
                reply: plain_reply(StatusCode::Success, login_refused()),
                stores,
                actions: seq![acquire, find, hash],
            }
        } else if collaborators.fails(insert) {
            Outcome {
                reply: server_error_reply(StatusCode::InternalServerError),
                stores,
                actions: seq![acquire, find, hash, sign_refresh, insert],
            }
        } else {
            Outcome {
                reply: reply_with_cookie(
                    login_granted(access_token, refresh_token),
                    issued_cookie(access_token),
                ),
                stores: stores.with_token(record),
                actions: seq![acquire, find, hash, sign_refresh, insert, sign_access],
            }
        }
    }
}

/// Every login ends, and ends as [`login_outcome`] says.
pub proof fn login_conversation_ends(
    stores: Stores,
    collaborators: Collaborators,
    param: LoginParamView,
)
    ensures
        login_conversation(stores, collaborators, param) == Some(
            login_outcome(stores, collaborators, param),
        ),
{
    reveal_with_fuel(converse, 8);
    let played = login_conversation(stores, collaborators, param);
    let expected = login_outcome(stores, collaborators, param);
    assert(played is Some);
    assert(played->0.actions =~= expected.actions);
}

/// The time as of which a logout revokes: the clock's reading as a store
/// timestamp.
pub open spec fn logout_time(collaborators: Collaborators) -> i64 {
    timestamp_of(collaborators.clock_seconds)
}

/// What a logout of `param` comes to.
pub open spec fn logout_outcome(
    stores: Stores,
    collaborators: Collaborators,
    param: LogoutParamView,
) -> Outcome<LogoutResponseView> {
    let acquire = ActionView::AcquireConnection;
    let revoke = ActionView::RevokeRefreshToken {
        token_value: param.refresh_token,
        dead_utc: logout_time(collaborators),
    };
    if !collaborators.connection_available {
        Outcome {
            reply: server_error_reply(StatusCode::InternalServerError),
            stores,
            actions: seq![acquire],
        }
    } else if collaborators.fails(revoke) {
        Outcome {
            reply: server_error_reply(StatusCode::InternalServerError),
            stores,
            actions: seq![acquire, ActionView::ReadClock, revoke],
        }
    } else {
        Outcome {
            reply: reply_with_cookie(logout_done(), cleared_cookie()),
            stores: stores.with_revoked(param.refresh_token, logout_time(collaborators)),
            actions: seq![acquire, ActionView::ReadClock, revoke],
        }
    }
}

/// Every logout ends, and ends as [`logout_outcome`] says.
pub proof fn logout_conversation_ends(
    stores: Stores,
    collaborators: Collaborators,
    param: LogoutParamView,
)
    ensures
        logout_conversation(stores, collaborators, param) == Some(
            logout_outcome(stores, collaborators, param),
        ),
{
    reveal_with_fuel(converse, 5);
    let played = logout_conversation(stores, collaborators, param);
    let expected = logout_outcome(stores, collaborators, param);
    assert(played is Some);
    assert(played->0.actions =~= expected.actions);
}

/// What a refresh of `param` comes to.
pub open spec fn refresh_outcome(
    stores: Stores,
    collaborators: Collaborators,
    param: RefreshParamView,
) -> Outcome<RefreshResponseView> {
    let acquire = ActionView::AcquireConnection;
    let probe = ActionView::RefreshTokenIsLive { token_value: param.refresh_token };
    let verify = ActionView::VerifyRefreshToken { token: param.refresh_token };
    if !collaborators.connection_available {
        Outcome {
            reply: server_error_reply(StatusCode::InternalServerError),
            stores,
            actions: seq![acquire],
        }
    } else if collaborators.fails(probe) {
        Outcome {
            reply: server_error_reply(StatusCode::InternalServerError),
            stores,
            actions: seq![acquire, probe],
        }
    } else if !stores.token_live(param.refresh_token) {
        Outcome {
            reply: plain_reply(StatusCode::Success, refresh_expired()),
            stores,
            actions: seq![acquire, probe],
        }
    } else {
        match (collaborators.verify)(param.refresh_token) {
            None => Outcome {
                reply: plain_reply(StatusCode::Success, refresh_expired()),
                stores,
                actions: seq![acquire, probe, verify],
            },
            Some(user_id) => {
                let find = ActionView::FindUserById { id: user_id };
                let found = stores.users_by_id(user_id);
                if collaborators.fails(find) {
                    Outcome {
                        reply: server_error_reply(StatusCode::Success),
                        stores,
                        actions: seq![acquire, probe, verify, find],
                    }
                } else if found.len() == 0 {
                    Outcome {
                        reply: plain_reply(StatusCode::Success, refresh_user_missing()),
                        stores,
                        actions: seq![acquire, probe, verify, find],
                    }
                } else {
                    let role = found[0].role;
                    let sign = ActionView::CreateAccessToken { user_id, role };
                    let access_token = (collaborators.access_token)(user_id, role);
                    Outcome {
                        reply: reply_with_cookie(
                            refresh_granted(access_token),
                            issued_cookie(access_token),
                        ),
                        stores,
                        actions: seq![acquire, probe, verify, find, sign],
                    }
                }
            },
        }
    }
}

/// Every refresh ends, and ends as [`refresh_outcome`] says.
pub proof fn refresh_conversation_ends(
    stores: Stores,
    collaborators: Collaborators,
    param: RefreshParamView,
)
    ensures
        refresh_conversation(stores, collaborators, param) == Some(
            refresh_outcome(stores, collaborators, param),
        ),
{
    reveal_with_fuel(converse, 7);
    let played = refresh_conversation(stores, collaborators, param);
    let expected = refresh_outcome(stores, collaborators, param);
    assert(played is Some);
    assert(played->0.actions =~= expected.actions);
}

} // verus!
