//! What holds of the handlers whatever the stores contain and whatever the
//! collaborators do, proved of whole conversations.

use vstd::prelude::*;
use crate::conversation::{
    converse, login_conversation, logout_conversation, refresh_conversation, signup_conversation,
};
use crate::exchange::{ActionView, EventView, StepView};
use crate::http::{
    cleared_cookie, issued_cookie, plain_reply, reply_with_cookie, BodyView, ReplyView,
    StatusCode,
};
use crate::login::{
    login_granted, login_refused, login_step, LoginParamView, LoginResponseView, LoginStateView,
};
use crate::logout::{logout_done, LogoutParamView};
use crate::outcomes::{
    login_conversation_ends, login_outcome, logout_conversation_ends, logout_outcome,
    logout_time, password_matches, refresh_conversation_ends, signup_conversation_ends,
    signup_outcome, signup_user,
};
use crate::records::{NewRefreshTokenView, UserView};
use crate::refresh::{refresh_expired, refresh_granted, RefreshParamView, RefreshResponseView};
use crate::signup::{signup_created, signup_duplicate, SignupParamView};
use crate::world::{Collaborators, Stores};

verus! {

/// A filter keeps something exactly if something passes it.
proof fn filter_keeps_what_passes<A>(rows: Seq<A>, pred: spec_fn(A) -> bool)
    ensures
        rows.filter(pred).len() > 0 <==> exists|i: int| 0 <= i < rows.len() && pred(rows[i]),
        rows.filter(pred).len() > 0 ==> pred(rows.filter(pred)[0]) && rows.contains(
            rows.filter(pred)[0],
        ),
{
    let kept = rows.filter(pred);
    if kept.len() > 0 {
        rows.lemma_filter_pred(pred, 0);
        assert(kept.contains(kept[0]));
        rows.lemma_filter_contains_rev(pred, kept[0]);
        let i = choose|i: int| 0 <= i < rows.len() && rows[i] == kept[0];
        assert(pred(rows[i]));
    }
    if exists|i: int| 0 <= i < rows.len() && pred(rows[i]) {
        let i = choose|i: int| 0 <= i < rows.len() && pred(rows[i]);
        rows.lemma_filter_contains(pred, i);
    }
}

/// Signing up twice with one email creates one user.
///
/// If a sign-up has created an account, the stores then hold exactly one
/// user with its email. A second sign-up with that email, whatever its
/// password and nickname, leaves the stores as they are, and is answered
/// with the duplicate payload whenever the connection can be taken and the
/// email check goes through.
pub proof fn second_signup_is_a_duplicate(
    stores: Stores,
    first_time: Collaborators,
    second_time: Collaborators,
    first: SignupParamView,
    second: SignupParamView,
)
    requires
        first.email == second.email,
        signup_conversation(stores, first_time, first) matches Some(created)
            && created.reply == plain_reply(StatusCode::Success, signup_created()),
    ensures
        ({
            let after = signup_conversation(stores, first_time, first)->0.stores;
            &&& after.users_with_email(first.email) == 1
            &&& signup_conversation(after, second_time, second) matches Some(again) && {
                &&& again.stores == after
                &&& second_time.connection_available && !second_time.fails(
                    ActionView::EmailExists { email: second.email },
                ) ==> again.reply == plain_reply(StatusCode::Success, signup_duplicate())
            }
        }),
{
    signup_conversation_ends(stores, first_time, first);
    let created = signup_outcome(stores, first_time, first);
    let after = created.stores;
    let row = first_time.admitted(signup_user(first_time, first));
    let same_email = |user: UserView| user.email == first.email;
    assert(!stores.email_taken(first.email));
    assert(after == stores.with_user(row));
    assert(stores.users.filter(same_email).len() == 0) by {
        filter_keeps_what_passes(stores.users, same_email);
    }
    stores.users.lemma_filter_len_push(same_email, row);
    assert(after.email_taken(second.email)) by {
        assert(after.users[stores.users.len() as int].email == second.email);
    }
    signup_conversation_ends(after, second_time, second);
}

/// Whether a login reply opens a session.
pub open spec fn opens_session(reply: ReplyView<LoginResponseView>) -> bool {
    reply.body matches BodyView::Payload(payload) && payload.success
}

/// Whether a refresh reply hands out an access token.
pub open spec fn renews_session(reply: ReplyView<RefreshResponseView>) -> bool {
    reply.body matches BodyView::Payload(payload) && payload.success
}

/// Whether `action` writes a refresh-token record or signs a token.
pub open spec fn issues_token(action: ActionView) -> bool {
    ||| action is InsertRefreshToken
    ||| action is CreateRefreshToken
    ||| action is CreateAccessToken
}

/// A login with bad credentials is refused and issues nothing.
///
/// Where no user has the email, no active user has it, or the password does
/// not match the first active user with it, no token is signed, no record
/// is attempted, and the stores stay as they are. The reply never opens a
/// session, and it is the refusal whenever the connection can be taken and
/// the lookup goes through.
pub proof fn bad_credentials_are_refused(
    stores: Stores,
    collaborators: Collaborators,
    param: LoginParamView,
)
    requires
        ({
            let found = stores.active_users(param.email);
            ||| !stores.email_taken(param.email)
            ||| found.len() == 0
            ||| !password_matches(collaborators, found[0], param.password)
        }),
    ensures
        login_conversation(stores, collaborators, param) matches Some(ended) && {
            &&& !opens_session(ended.reply)
            &&& ended.stores == stores
            &&& forall|i: int| 0 <= i < ended.actions.len() ==> !issues_token(ended.actions[i])
            &&& collaborators.connection_available && !collaborators.fails(
                ActionView::FindActiveUsersByEmail { email: param.email },
            ) ==> ended.reply == plain_reply(StatusCode::Success, login_refused())
        },
{
    login_conversation_ends(stores, collaborators, param);
    if !stores.email_taken(param.email) {
        filter_keeps_what_passes(
            stores.users,
            |user: UserView| user.email == param.email && user.active,
        );
    }
}

/// A login that does not open a session leaves the stores as they were,
/// sets no cookie and carries no token.
pub proof fn failed_login_leaves_no_record(
    stores: Stores,
    collaborators: Collaborators,
    param: LoginParamView,
)
    ensures
        login_conversation(stores, collaborators, param) matches Some(ended) && (!opens_session(
            ended.reply,
        ) ==> {
            &&& ended.stores == stores
            &&& ended.reply.cookie is None
            &&& forall|i: int|
                0 <= i < ended.actions.len() ==> !(ended.actions[i] is CreateAccessToken)
            &&& ended.reply.body matches BodyView::Payload(payload) ==> payload.access_token.len()
                == 0 && payload.refresh_token.len() == 0
        }),
{
    login_conversation_ends(stores, collaborators, param);
}

/// A session is opened only on a recorded refresh token.
///
/// A login that opens a session has added exactly one record to the token
/// store: a live one, of the refresh token in the reply, for the user who
/// logged in. The record was written before the access token was signed,
/// and the cookie carries the access token of the reply.
pub proof fn session_rests_on_a_recorded_token(
    stores: Stores,
    collaborators: Collaborators,
    param: LoginParamView,
)
    ensures
        login_conversation(stores, collaborators, param) matches Some(ended) && (opens_session(
            ended.reply,
        ) ==> {
            let payload = ended.reply.body->Payload_0;
            let user = stores.active_users(param.email)[0];
            let record = NewRefreshTokenView {
                token_value: payload.refresh_token,
                user_id: user.id,
            };
            &&& stores.active_users(param.email).len() > 0
            &&& password_matches(collaborators, user, param.password)
            &&& ended.stores == stores.with_token(record)
            &&& ended.stores.token_live(payload.refresh_token)
            &&& ended.reply.status == StatusCode::Success
            &&& ended.reply.cookie == Some(issued_cookie(payload.access_token))
            &&& exists|i: int, j: int|
                0 <= i < j < ended.actions.len() && ended.actions[i]
                    == ActionView::InsertRefreshToken(record) && ended.actions[j]
                    is CreateAccessToken
        }),
{
    login_conversation_ends(stores, collaborators, param);
    let ended = login_outcome(stores, collaborators, param);
    if opens_session(ended.reply) {
        let payload = ended.reply.body->Payload_0;
        let user = stores.active_users(param.email)[0];
        let record = NewRefreshTokenView { token_value: payload.refresh_token, user_id: user.id };
        assert(ended.actions[4] == ActionView::InsertRefreshToken(record));
        assert(ended.actions[5] is CreateAccessToken);
        let last = stores.tokens.len() as int;
        assert(ended.stores.tokens[last].live() && ended.stores.tokens[last].token_value
            == payload.refresh_token);
    }
}

/// The access token is asked for only in answer to the store's confirmation
/// that the refresh token is recorded.
pub proof fn access_token_follows_the_record(state: LoginStateView, event: EventView)
    ensures
        login_step(state, event) matches StepView::Perform { action, .. } && action
            is CreateAccessToken ==> state is Recording && event matches EventView::Written(Ok(_)),
{
}

/// A revocation leaves no live record of the token.
proof fn revoked_token_is_dead(stores: Stores, token_value: Seq<char>, at: i64)
    ensures
        !stores.with_revoked(token_value, at).token_live(token_value),
{
}

/// Revoking a token of which no live record exists changes nothing.
proof fn revoking_a_dead_token_changes_nothing(stores: Stores, token_value: Seq<char>, at: i64)
    requires
        !stores.token_live(token_value),
    ensures
        stores.with_revoked(token_value, at) == stores,
{
    assert(stores.with_revoked(token_value, at).tokens =~= stores.tokens);
}

/// A token that has been logged out no longer refreshes.
///
/// After a logout has gone through, the store holds no live record of the
/// token, and that stays so in every later state of the stores in which the
/// token has not been recorded anew. A refresh with the token in such a
/// state never hands out an access token, and it is answered as expired
/// whenever the connection can be taken and the liveness query goes through.
pub proof fn logged_out_token_is_expired(
    stores: Stores,
    at_logout: Collaborators,
    refresh_token: Seq<char>,
    later: Stores,
    at_refresh: Collaborators,
)
    requires
        logout_conversation(
            stores,
            at_logout,
            LogoutParamView { refresh_token },
        ) matches Some(logged_out) && {
            &&& logged_out.reply == reply_with_cookie(logout_done(), cleared_cookie())
            &&& logged_out.stores.leads_to(later)
            &&& forall|k: int|
                logged_out.stores.tokens.len() <= k < later.tokens.len() ==> (
                #[trigger] later.tokens[k]).token_value != refresh_token
        },
    ensures
        !later.token_live(refresh_token),
        refresh_conversation(
            later,
            at_refresh,
            RefreshParamView { refresh_token },
        ) matches Some(refreshed) && {
            &&& !renews_session(refreshed.reply)
            &&& refreshed.stores == later
            &&& at_refresh.connection_available && !at_refresh.fails(
                ActionView::RefreshTokenIsLive { token_value: refresh_token },
            ) ==> refreshed.reply == plain_reply(StatusCode::Success, refresh_expired())
        },
{
    logout_conversation_ends(stores, at_logout, LogoutParamView { refresh_token });
    let after = logout_outcome(stores, at_logout, LogoutParamView { refresh_token }).stores;
    revoked_token_is_dead(stores, refresh_token, logout_time(at_logout));
    assert(!later.token_live(refresh_token)) by {
        if later.token_live(refresh_token) {
            let k = choose|k: int|
                0 <= k < later.tokens.len() && (#[trigger] later.tokens[k]).live()
                    && later.tokens[k].token_value == refresh_token;
            assert(k < after.tokens.len());
            assert(after.tokens[k].live() && after.tokens[k].token_value == refresh_token);
        }
    }
    refresh_conversation_ends(later, at_refresh, RefreshParamView { refresh_token });
}

/// A logout kills the token it names and no other.
///
/// Whether any other token is live is the same after a logout as before.
pub proof fn logout_spares_other_tokens(
    stores: Stores,
    collaborators: Collaborators,
    refresh_token: Seq<char>,
    other: Seq<char>,
)
    requires
        other != refresh_token,
    ensures
        logout_conversation(
            stores,
            collaborators,
            LogoutParamView { refresh_token },
        ) matches Some(ended) && ended.stores.token_live(other) == stores.token_live(other),
{
    logout_conversation_ends(stores, collaborators, LogoutParamView { refresh_token });
    let after = stores.with_revoked(refresh_token, logout_time(collaborators));
    if stores.token_live(other) {
        let k = choose|k: int|
            0 <= k < stores.tokens.len() && (#[trigger] stores.tokens[k]).live()
                && stores.tokens[k].token_value == other;
        assert(after.tokens[k] == stores.tokens[k]);
    }
    if after.token_live(other) {
        let k = choose|k: int|
            0 <= k < after.tokens.len() && (#[trigger] after.tokens[k]).live()
                && after.tokens[k].token_value == other;
        assert(stores.tokens[k].live() && stores.tokens[k].token_value == other);
    }
}

/// Logging out a token that was never issued, or is already dead, changes
/// nothing.
///
/// The stores stay exactly as they are, and the logout is confirmed, with
/// the cookie cleared, whenever the connection can be taken and the
/// transaction goes through. Logging out twice is therefore the same as
/// logging out once.
pub proof fn logout_of_a_dead_token_changes_nothing(
    stores: Stores,
    collaborators: Collaborators,
    refresh_token: Seq<char>,
)
    requires
        !stores.token_live(refresh_token),
    ensures
        logout_conversation(
            stores,
            collaborators,
            LogoutParamView { refresh_token },
        ) matches Some(ended) && {
            &&& ended.stores == stores
            &&& collaborators.connection_available && !collaborators.fails(
                ActionView::RevokeRefreshToken {
                    token_value: refresh_token,
                    dead_utc: logout_time(collaborators),
                },
            ) ==> ended.reply == reply_with_cookie(logout_done(), cleared_cookie())
        },
{
    logout_conversation_ends(stores, collaborators, LogoutParamView { refresh_token });
    revoking_a_dead_token_changes_nothing(stores, refresh_token, logout_time(collaborators));
}

/// A refresh is granted to live and valid tokens only, and changes nothing.
///
/// An access token is handed out exactly when the connection can be taken,
/// the store holds a live record of the token, the token service verifies
/// the token, and the user it names exists, with both queries going
/// through. A token that is valid but dead, or live but invalid, is turned
/// down. A granted refresh signs exactly one access token, for the user
/// named in the token, and the reply and the cookie carry that token.
/// Granted or not, a refresh leaves both stores as they are.
pub proof fn refresh_needs_a_live_and_valid_token(
    stores: Stores,
    collaborators: Collaborators,
    param: RefreshParamView,
)
    ensures
        refresh_conversation(stores, collaborators, param) matches Some(ended) && {
            let token = param.refresh_token;
            let verdict = (collaborators.verify)(token);
            &&& ended.stores == stores
            &&& renews_session(ended.reply) <==> {
                &&& collaborators.connection_available
                &&& !collaborators.fails(ActionView::RefreshTokenIsLive { token_value: token })
                &&& stores.token_live(token)
                &&& verdict matches Some(user_id) && stores.has_user(user_id)
                    && !collaborators.fails(ActionView::FindUserById { id: user_id })
            }
            &&& renews_session(ended.reply) ==> {
                let user_id = verdict->0;
                let role = stores.users_by_id(user_id)[0].role;
                let access_token = (collaborators.access_token)(user_id, role);
                let last = ended.actions.len() - 1;
                &&& ended.reply == reply_with_cookie(
                    refresh_granted(access_token),
                    issued_cookie(access_token),
                )
                &&& ended.actions[last] == ActionView::CreateAccessToken { user_id, role }
                &&& forall|i: int|
                    0 <= i < ended.actions.len() && ended.actions[i] is CreateAccessToken ==> i
                        == last
            }
            &&& !renews_session(ended.reply) ==> {
                &&& ended.reply.cookie is None
                &&& forall|i: int|
                    0 <= i < ended.actions.len() ==> !(ended.actions[i] is CreateAccessToken)
            }
        },
{
    refresh_conversation_ends(stores, collaborators, param);
    match (collaborators.verify)(param.refresh_token) {
        Some(user_id) => {
            filter_keeps_what_passes(stores.users, |user: UserView| user.id == user_id);
        },
        None => {},
    }
}

/// Whatever the collaborators answer to an action keeps the history of the
/// stores.
proof fn answer_keeps_history(collaborators: Collaborators, stores: Stores, action: ActionView)
    ensures
        stores.leads_to(collaborators.answer(stores, action).1),
{
}

/// Once dead, always dead: no conversation rewrites history.
///
/// Whatever a handler asks for, and whatever the collaborators do, a
/// conversation only adds rows to the stores and revokes live records: no
/// user changes, every token record keeps its token and its user, and a
/// record that was dead before is the same record afterwards.
pub proof fn history_is_kept<S, P>(
    handler: spec_fn(S, EventView) -> StepView<S, P>,
    state: S,
    event: EventView,
    stores: Stores,
    collaborators: Collaborators,
    patience: nat,
)
    ensures
        converse(handler, state, event, stores, collaborators, patience) matches Some(ended)
            ==> stores.leads_to(ended.stores),
    decreases patience,
{
    match handler(state, event) {
        StepView::Respond(_) => {},
        StepView::Perform { state: next, action } => {
            if patience > 0 {
                let (answer, after) = collaborators.answer(stores, action);
                answer_keeps_history(collaborators, stores, action);
                history_is_kept(handler, next, answer, after, collaborators, (patience - 1) as nat);
            }
        },
    }
}

/// A user that exists keeps existing.
proof fn users_remain(before: Stores, after: Stores, id: i64)
    requires
        before.has_user(id),
        before.leads_to(after),
    ensures
        after.has_user(id),
{
    let owner = choose|i: int| 0 <= i < before.users.len() && (#[trigger] before.users[i]).id == id;
    assert(after.users[owner].id == id);
}

/// The handlers keep the stores consistent.
///
/// If no two users share an email and every token record belongs to an
/// existing user, the same holds after a sign-up, a login, a logout and a
/// refresh, whatever the collaborators do.
pub proof fn consistency_is_kept(
    stores: Stores,
    collaborators: Collaborators,
    signing_up: SignupParamView,
    logging_in: LoginParamView,
    logging_out: LogoutParamView,
    refreshing: RefreshParamView,
)
    requires
        stores.consistent(),
    ensures
        signup_conversation(stores, collaborators, signing_up) matches Some(ended)
            && ended.stores.consistent(),
        login_conversation(stores, collaborators, logging_in) matches Some(ended)
            && ended.stores.consistent(),
        logout_conversation(stores, collaborators, logging_out) matches Some(ended)
            && ended.stores.consistent(),
        refresh_conversation(stores, collaborators, refreshing) matches Some(ended)
            && ended.stores.consistent(),
{
    signup_conversation_ends(stores, collaborators, signing_up);
    let signed_up = signup_outcome(stores, collaborators, signing_up).stores;
    assert(signed_up.consistent()) by {
        assert forall|k: int| 0 <= k < signed_up.tokens.len() implies signed_up.has_user(
            (#[trigger] signed_up.tokens[k]).user_id,
        ) by {
            assert(signed_up.tokens[k] == stores.tokens[k]);
            users_remain(stores, signed_up, stores.tokens[k].user_id);
        }
    }
    login_conversation_ends(stores, collaborators, logging_in);
    let logged_in = login_outcome(stores, collaborators, logging_in).stores;
    assert(logged_in.consistent()) by {
        let found = stores.active_users(logging_in.email);
        filter_keeps_what_passes(
            stores.users,
            |user: UserView| user.email == logging_in.email && user.active,
        );
        assert forall|k: int| 0 <= k < logged_in.tokens.len() implies logged_in.has_user(
            (#[trigger] logged_in.tokens[k]).user_id,
        ) by {
            if k < stores.tokens.len() {
                assert(logged_in.tokens[k] == stores.tokens[k]);
                users_remain(stores, logged_in, stores.tokens[k].user_id);
            } else {
                let owner = choose|i: int|
                    0 <= i < stores.users.len() && stores.users[i] == found[0];
                assert(logged_in.users[owner].id == logged_in.tokens[k].user_id);
            }
        }
    }
    logout_conversation_ends(stores, collaborators, logging_out);
    let logged_out = logout_outcome(stores, collaborators, logging_out).stores;
    assert(logged_out.consistent()) by {
        assert forall|k: int| 0 <= k < logged_out.tokens.len() implies logged_out.has_user(
            (#[trigger] logged_out.tokens[k]).user_id,
        ) by {
            assert(logged_out.tokens[k].user_id == stores.tokens[k].user_id);
            users_remain(stores, logged_out, stores.tokens[k].user_id);
        }
    }
    refresh_conversation_ends(stores, collaborators, refreshing);
}

/// A live token stays the token of one record.
///
/// If the token of every live record matches that record alone, the same
/// holds after a sign-up, a logout and a refresh, whatever the
/// collaborators do, and after a login unless it opened a session on a
/// token that the store had already recorded: the token service must not
/// sign the same refresh token twice.
pub proof fn live_tokens_stay_unique(
    stores: Stores,
    collaborators: Collaborators,
    signing_up: SignupParamView,
    logging_in: LoginParamView,
    logging_out: LogoutParamView,
    refreshing: RefreshParamView,
)
    requires
        stores.live_tokens_unique(),
    ensures
        signup_conversation(stores, collaborators, signing_up) matches Some(ended)
            && ended.stores.live_tokens_unique(),
        login_conversation(stores, collaborators, logging_in) matches Some(ended) && ((
        opens_session(ended.reply) ==> !stores.token_recorded(
            ended.reply.body->Payload_0.refresh_token,
        )) ==> ended.stores.live_tokens_unique()),
        logout_conversation(stores, collaborators, logging_out) matches Some(ended)
            && ended.stores.live_tokens_unique(),
        refresh_conversation(stores, collaborators, refreshing) matches Some(ended)
            && ended.stores.live_tokens_unique(),
{
    signup_conversation_ends(stores, collaborators, signing_up);
    login_conversation_ends(stores, collaborators, logging_in);
    logout_conversation_ends(stores, collaborators, logging_out);
    refresh_conversation_ends(stores, collaborators, refreshing);
    let logged_in = login_outcome(stores, collaborators, logging_in);
    if opens_session(logged_in.reply) && !stores.token_recorded(
        logged_in.reply.body->Payload_0.refresh_token,
    ) {
        let after = logged_in.stores;
        let last = stores.tokens.len() as int;
        assert forall|i: int, j: int|
            0 <= i < after.tokens.len() && 0 <= j < after.tokens.len() && i != j && (
            #[trigger] after.tokens[i]).live() implies after.tokens[i].token_value != (
        #[trigger] after.tokens[j]).token_value by {
            if i < last {
                assert(after.tokens[i] == stores.tokens[i]);
            }
            if j < last {
                assert(after.tokens[j] == stores.tokens[j]);
            }
        }
    }
    let logged_out = logout_outcome(stores, collaborators, logging_out).stores;
    assert forall|i: int, j: int|
        0 <= i < logged_out.tokens.len() && 0 <= j < logged_out.tokens.len() && i != j && (
        #[trigger] logged_out.tokens[i]).live() implies logged_out.tokens[i].token_value != (
    #[trigger] logged_out.tokens[j]).token_value by {
        assert(stores.tokens[i].live());
        assert(logged_out.tokens[i].token_value == stores.tokens[i].token_value);
        assert(logged_out.tokens[j].token_value == stores.tokens[j].token_value);
    }
}

/// A store that assigns fresh ids keeps the ids of its users apart.
///
/// If no two users share an id, the same holds after a sign-up whose user
/// was given an id that no user had, and after a login, a logout and a
/// refresh, which add no user.
pub proof fn user_ids_stay_unique(
    stores: Stores,
    collaborators: Collaborators,
    signing_up: SignupParamView,
    logging_in: LoginParamView,
    logging_out: LogoutParamView,
    refreshing: RefreshParamView,
)
    requires
        stores.user_ids_unique(),
    ensures
        signup_conversation(stores, collaborators, signing_up) matches Some(ended) && (
        !stores.has_user(collaborators.assigned_user_id) ==> ended.stores.user_ids_unique()),
        login_conversation(stores, collaborators, logging_in) matches Some(ended)
            && ended.stores.users == stores.users,
        logout_conversation(stores, collaborators, logging_out) matches Some(ended)
            && ended.stores.users == stores.users,
        refresh_conversation(stores, collaborators, refreshing) matches Some(ended)
            && ended.stores.users == stores.users,
{
    signup_conversation_ends(stores, collaborators, signing_up);
    login_conversation_ends(stores, collaborators, logging_in);
    logout_conversation_ends(stores, collaborators, logging_out);
    refresh_conversation_ends(stores, collaborators, refreshing);
}

/// The tokens in a reply are the tokens that the token service signed.
///
/// A login that opens a session carries the refresh token and the access
/// token signed for the user who logged in, and a granted refresh the
/// access token signed for the user named in the token. If the token
/// service signs no empty token, none of them is empty.
pub proof fn granted_tokens_are_the_signed_ones(
    stores: Stores,
    collaborators: Collaborators,
    logging_in: LoginParamView,
    refreshing: RefreshParamView,
)
    ensures
        login_conversation(stores, collaborators, logging_in) matches Some(ended) && (
        opens_session(ended.reply) ==> {
            let user = stores.active_users(logging_in.email)[0];
            let payload = ended.reply.body->Payload_0;
            &&& payload.refresh_token == (collaborators.refresh_token)(user.id, user.role)
            &&& payload.access_token == (collaborators.access_token)(user.id, user.role)
            &&& collaborators.signs_nonempty_tokens() ==> payload.refresh_token.len() > 0
                && payload.access_token.len() > 0
        }),
        refresh_conversation(stores, collaborators, refreshing) matches Some(ended) && (
        renews_session(ended.reply) ==> {
            let user_id = (collaborators.verify)(refreshing.refresh_token)->0;
            let role = stores.users_by_id(user_id)[0].role;
            let payload = ended.reply.body->Payload_0;
            &&& payload.access_token == (collaborators.access_token)(user_id, role)
            &&& collaborators.signs_nonempty_tokens() ==> payload.access_token.len() > 0
        }),
{
    login_conversation_ends(stores, collaborators, logging_in);
    refresh_conversation_ends(stores, collaborators, refreshing);
}

/// A session that has just been opened can be renewed.
///
/// After a login has opened a session, a refresh with its refresh token is
/// granted whenever the collaborators are dependable and the token service
/// verifies the token as the one of the user who logged in.
pub proof fn fresh_session_can_be_renewed(
    stores: Stores,
    at_login: Collaborators,
    at_refresh: Collaborators,
    logging_in: LoginParamView,
)
    requires
        login_conversation(stores, at_login, logging_in) matches Some(opened) && opens_session(
            opened.reply,
        ) && (at_refresh.verify)(opened.reply.body->Payload_0.refresh_token) == Some(
            stores.active_users(logging_in.email)[0].id,
        ),
        at_refresh.dependable(),
    ensures
        ({
            let opened = login_conversation(stores, at_login, logging_in)->0;
            let refresh_token = opened.reply.body->Payload_0.refresh_token;
            refresh_conversation(
                opened.stores,
                at_refresh,
                RefreshParamView { refresh_token },
            ) matches Some(renewed) && renews_session(renewed.reply) && renewed.stores
                == opened.stores
        }),
{
    login_conversation_ends(stores, at_login, logging_in);
    let opened = login_outcome(stores, at_login, logging_in);
    let refresh_token = opened.reply.body->Payload_0.refresh_token;
    let user = stores.active_users(logging_in.email)[0];
    session_rests_on_a_recorded_token(stores, at_login, logging_in);
    filter_keeps_what_passes(
        stores.users,
        |user: UserView| user.email == logging_in.email && user.active,
    );
    let owner = choose|i: int| 0 <= i < stores.users.len() && stores.users[i] == user;
    assert(opened.stores.users[owner].id == user.id);
    refresh_needs_a_live_and_valid_token(
        opened.stores,
        at_refresh,
        RefreshParamView { refresh_token },
    );
    assert(!at_refresh.fails(ActionView::RefreshTokenIsLive { token_value: refresh_token }));
    assert(!at_refresh.fails(ActionView::FindUserById { id: user.id }));
}

/// The password that an account was created with logs in.
///
/// After a sign-up has created an account, a login with the same email and
/// password, checked with the same hasher, opens a session for the new
/// user whenever the collaborators are dependable.
pub proof fn new_account_can_log_in(
    stores: Stores,
    at_signup: Collaborators,
    at_login: Collaborators,
    signing_up: SignupParamView,
    logging_in: LoginParamView,
)
    requires
        signup_conversation(stores, at_signup, signing_up) matches Some(created) && created.reply
            == plain_reply(StatusCode::Success, signup_created()),
        logging_in.email == signing_up.email,
        logging_in.password == signing_up.password,
        at_login.hash == at_signup.hash,
        at_login.dependable(),
    ensures
        ({
            let after = signup_conversation(stores, at_signup, signing_up)->0.stores;
            let user_id = at_signup.assigned_user_id;
            let role = at_signup.assigned_role;
            login_conversation(after, at_login, logging_in) matches Some(ended) && ended.reply
                == reply_with_cookie(
                login_granted(
                    (at_login.access_token)(user_id, role),
                    (at_login.refresh_token)(user_id, role),
                ),
                issued_cookie((at_login.access_token)(user_id, role)),
            )
        }),
{
    signup_conversation_ends(stores, at_signup, signing_up);
    let after = signup_outcome(stores, at_signup, signing_up).stores;
    let row = at_signup.admitted(signup_user(at_signup, signing_up));
    let wanted = |user: UserView| user.email == logging_in.email && user.active;
    filter_keeps_what_passes(stores.users, wanted);
    stores.users.lemma_filter_push(row, wanted);
    assert(after.active_users(logging_in.email) =~= seq![row]);
    login_conversation_ends(after, at_login, logging_in);
    let find = ActionView::FindActiveUsersByEmail { email: logging_in.email };
    assert(!at_login.fails(find));
    let record = NewRefreshTokenView {
        token_value: (at_login.refresh_token)(row.id, row.role),
        user_id: row.id,
    };
    assert(!at_login.fails(ActionView::InsertRefreshToken(record)));
}

/// With dependable collaborators every request is answered with status
/// 200: a taken email, bad credentials, a dead or invalid token and a
/// missing user are outcomes of the service, not failures of it.
pub proof fn dependable_collaborators_get_status_200(
    stores: Stores,
    collaborators: Collaborators,
    signing_up: SignupParamView,
    logging_in: LoginParamView,
    logging_out: LogoutParamView,
    refreshing: RefreshParamView,
)
    requires
        collaborators.dependable(),
    ensures
        signup_conversation(stores, collaborators, signing_up) matches Some(ended)
            && ended.reply.status == StatusCode::Success && ended.reply.body is Payload,
        login_conversation(stores, collaborators, logging_in) matches Some(ended)
            && ended.reply.status == StatusCode::Success && ended.reply.body is Payload,
        logout_conversation(stores, collaborators, logging_out) matches Some(ended)
            && ended.reply.status == StatusCode::Success && ended.reply.body is Payload,
        refresh_conversation(stores, collaborators, refreshing) matches Some(ended)
            && ended.reply.status == StatusCode::Success && ended.reply.body is Payload,
{
    signup_conversation_ends(stores, collaborators, signing_up);
    login_conversation_ends(stores, collaborators, logging_in);
    logout_conversation_ends(stores, collaborators, logging_out);
    refresh_conversation_ends(stores, collaborators, refreshing);
    assert(!collaborators.fails(ActionView::EmailExists { email: signing_up.email }));
    assert(!collaborators.fails(
        ActionView::InsertUser(signup_user(collaborators, signing_up)),
    ));
    assert(!collaborators.fails(ActionView::FindActiveUsersByEmail { email: logging_in.email }));
    let found = stores.active_users(logging_in.email);
    if found.len() > 0 {
        let record = NewRefreshTokenView {
            token_value: (collaborators.refresh_token)(found[0].id, found[0].role),
            user_id: found[0].id,
        };
        assert(!collaborators.fails(ActionView::InsertRefreshToken(record)));
    }
    assert(!collaborators.fails(
        ActionView::RevokeRefreshToken {
            token_value: logging_out.refresh_token,
            dead_utc: logout_time(collaborators),
        },
    ));
    assert(!collaborators.fails(
        ActionView::RefreshTokenIsLive { token_value: refreshing.refresh_token },
    ));
    match (collaborators.verify)(refreshing.refresh_token) {
        Some(user_id) => {
            assert(!collaborators.fails(ActionView::FindUserById { id: user_id }));
        },
        None => {},
    }
}

/// Whether two sets of collaborators act alike but for the text of the
/// errors with which their stores fail.
pub open spec fn alike_but_for_error_texts(one: Collaborators, other: Collaborators) -> bool {
    &&& forall|action: ActionView| #[trigger] one.fails(action) == other.fails(action)
    &&& other == Collaborators { store_error: other.store_error, ..one }
}

/// What a store says when it fails does not reach the client of a sign-up,
/// a logout or a refresh: their replies are the same whatever the text of
/// the error.
pub proof fn store_errors_stay_inside(
    stores: Stores,
    one: Collaborators,
    other: Collaborators,
    signing_up: SignupParamView,
    logging_out: LogoutParamView,
    refreshing: RefreshParamView,
)
    requires
        alike_but_for_error_texts(one, other),
    ensures
        signup_conversation(stores, one, signing_up) matches Some(ended) && signup_conversation(
            stores,
            other,
            signing_up,
        ) matches Some(likewise) && ended.reply == likewise.reply,
        logout_conversation(stores, one, logging_out) matches Some(ended) && logout_conversation(
            stores,
            other,
            logging_out,
        ) matches Some(likewise) && ended.reply == likewise.reply,
        refresh_conversation(stores, one, refreshing) matches Some(ended) && refresh_conversation(
            stores,
            other,
            refreshing,
        ) matches Some(likewise) && ended.reply == likewise.reply,
{
    signup_conversation_ends(stores, one, signing_up);
    signup_conversation_ends(stores, other, signing_up);
    logout_conversation_ends(stores, one, logging_out);
    logout_conversation_ends(stores, other, logging_out);
    refresh_conversation_ends(stores, one, refreshing);
    refresh_conversation_ends(stores, other, refreshing);
    assert(one.fails(ActionView::EmailExists { email: signing_up.email }) == other.fails(
        ActionView::EmailExists { email: signing_up.email },
    ));
    assert(signup_user(one, signing_up) == signup_user(other, signing_up));
    assert(one.fails(ActionView::InsertUser(signup_user(one, signing_up))) == other.fails(
        ActionView::InsertUser(signup_user(one, signing_up)),
    ));
    let revoke = ActionView::RevokeRefreshToken {
        token_value: logging_out.refresh_token,
        dead_utc: logout_time(one),
    };
    assert(one.fails(revoke) == other.fails(revoke));
    assert(one.fails(ActionView::RefreshTokenIsLive { token_value: refreshing.refresh_token })
        == other.fails(ActionView::RefreshTokenIsLive { token_value: refreshing.refresh_token }));
    match (one.verify)(refreshing.refresh_token) {
        Some(user_id) => {
            assert(one.fails(ActionView::FindUserById { id: user_id }) == other.fails(
                ActionView::FindUserById { id: user_id },
            ));
        },
        None => {},
    }
}

} // verus!
