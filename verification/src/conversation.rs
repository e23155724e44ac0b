//! Complete conversations: a handler's steps played against the model of
//! its collaborators until the handler replies.

use vstd::prelude::*;
use crate::exchange::{ActionView, EventView, StepView};
use crate::http::ReplyView;
use crate::login::{login_step, LoginParamView, LoginResponseView, LoginStateView};
use crate::logout::{logout_step, LogoutParamView, LogoutResponseView, LogoutStateView};
use crate::refresh::{refresh_step, RefreshParamView, RefreshResponseView, RefreshStateView};
use crate::signup::{signup_step, SignupParamView, SignupResponseView, SignupStateView};
use crate::world::{Collaborators, Stores};

verus! {

/// How a conversation ended: the reply, the stores that it left behind, and
/// the actions that were performed, in order.
pub struct Outcome<P> {
    pub reply: ReplyView<P>,
    pub stores: Stores,
    pub actions: Seq<ActionView>,
}

/// Plays `handler` from `state` and `event` on: each action that it asks
/// for is answered by the collaborators, and the answer is handed back with
/// the state that the handler left, until it replies. `None` if the handler
/// asks for more than `patience` actions.
pub open spec fn converse<S, P>(
    handler: spec_fn(S, EventView) -> StepView<S, P>,
    state: S,
    event: EventView,
    stores: Stores,
    collaborators: Collaborators,
    patience: nat,
) -> Option<Outcome<P>>
    decreases patience,
{
    match handler(state, event) {
        StepView::Respond(reply) => Some(Outcome { reply, stores, actions: Seq::empty() }),
        StepView::Perform { state: next, action } => {
            if patience == 0 {
                None
            } else {
                let (answer, after) = collaborators.answer(stores, action);
                match converse(
                    handler,
                    next,
                    answer,
                    after,
                    collaborators,
                    (patience - 1) as nat,
                ) {
                    Some(rest) => Some(
                        Outcome {
                            reply: rest.reply,
                            stores: rest.stores,
                            actions: seq![action] + rest.actions,
                        },
                    ),
                    None => None,
                }
            }
        },
    }
}

/// More actions than any handler asks for in one conversation.
pub open spec fn ample_patience() -> nat {
    8
}

/// A whole sign-up of `param`, from the arrival of the request to the reply.
pub open spec fn signup_conversation(
    stores: Stores,
    collaborators: Collaborators,
    param: SignupParamView,
) -> Option<Outcome<SignupResponseView>> {
    converse(
        |state: SignupStateView, event: EventView| signup_step(state, event),
        SignupStateView::Received(param),
        EventView::Start,
        stores,
        collaborators,
        ample_patience(),
    )
}

/// A whole login of `param`, from the arrival of the request to the reply.
pub open spec fn login_conversation(
    stores: Stores,
    collaborators: Collaborators,
    param: LoginParamView,
) -> Option<Outcome<LoginResponseView>> {
    converse(
        |state: LoginStateView, event: EventView| login_step(state, event),
        LoginStateView::Received(param),
        EventView::Start,
        stores,
        collaborators,
        ample_patience(),
    )
}

/// A whole logout of `param`, from the arrival of the request to the reply.
pub open spec fn logout_conversation(
    stores: Stores,
    collaborators: Collaborators,
    param: LogoutParamView,
) -> Option<Outcome<LogoutResponseView>> {
    converse(
        |state: LogoutStateView, event: EventView| logout_step(state, event),
        LogoutStateView::Received(param),
        EventView::Start,
        stores,
        collaborators,
        ample_patience(),
    )
}

/// A whole refresh of `param`, from the arrival of the request to the reply.
pub open spec fn refresh_conversation(
    stores: Stores,
    collaborators: Collaborators,
    param: RefreshParamView,
) -> Option<Outcome<RefreshResponseView>> {
    converse(
        |state: RefreshStateView, event: EventView| refresh_step(state, event),
        RefreshStateView::Received(param),
        EventView::Start,
        stores,
        collaborators,
        ample_patience(),
    )
}

} // verus!
