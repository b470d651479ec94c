//! Whole runs of the authentication middleware: what holds of every
//! sequence of events that a middleware may be handed, from its start.

use crate::middleware::{
    auth_step, AuthActionView, AuthEventView, AuthStage, SessionLookupView, UserLookupView,
};
use crate::token_validation::{token_verdict, TokenValidation};
use vstd::prelude::*;

verus! {

/// Where a middleware stands and what it has answered after it was handed
/// the events one after the other, from its start.
pub open spec fn auth_run(events: Seq<AuthEventView>) -> (AuthStage, Seq<AuthActionView>)
    decreases events.len(),
{
    if events.len() == 0 {
        (AuthStage::Start, Seq::empty())
    } else {
        let before = auth_run(events.drop_last());
        let step = auth_step(before.0, events.last());
        (step.0, before.1.push(step.1))
    }
}

/// The event is the arrival of a request with a session record of this user
/// whose tokens were accepted, with or without the demand for a refresh.
pub open spec fn request_accepted(event: AuthEventView, user_id: u128, refresh: bool) -> bool {
    event matches AuthEventView::RequestReceived {
        lookup: SessionLookupView::Found(record),
        access_token,
        refresh_token,
        now,
    } && record.user_id == user_id && token_verdict(record, access_token, refresh_token, now) == (
    if refresh {
        TokenValidation::RequiredRefresh
    } else {
        TokenValidation::Succeed
    })
}

/// The event is the finding of the user with this identifier.
pub open spec fn user_found(event: AuthEventView, user_id: u128) -> bool {
    event matches AuthEventView::UserLoaded(UserLookupView::Found(user)) && user.id == user_id
}

/// What the stage of a middleware tells about the events that led to it.
pub open spec fn auth_history(events: Seq<AuthEventView>, stage: AuthStage) -> bool {
    match stage {
        AuthStage::Start => events.len() == 0,
        AuthStage::LoadingUser { user_id, refresh } => {
            &&& events.len() == 1
            &&& request_accepted(events[0], user_id, refresh)
        },
        AuthStage::Handling { user_id, refresh } => {
            &&& events.len() == 2
            &&& request_accepted(events[0], user_id, refresh)
            &&& user_found(events[1], user_id)
        },
        AuthStage::Minting { user_id } => {
            &&& events.len() == 3
            &&& request_accepted(events[0], user_id, true)
            &&& user_found(events[1], user_id)
            &&& events[2] == (AuthEventView::HandlerFinished { succeeded: true })
        },
        AuthStage::Storing { session } => {
            &&& events.len() == 4
            &&& request_accepted(events[0], session.user_id, true)
            &&& user_found(events[1], session.user_id)
            &&& events[2] == (AuthEventView::HandlerFinished { succeeded: true })
            &&& events[3] == AuthEventView::SessionMinted(Ok(session))
        },
        AuthStage::Finished => events.len() > 0,
    }
}

/// A run answers every event with one action, and its stage tells the events
/// that led to it.
pub proof fn lemma_auth_history(events: Seq<AuthEventView>)
    ensures
        auth_run(events).1.len() == events.len(),
        auth_history(events, auth_run(events).0),
    decreases events.len(),
{
    if events.len() > 0 {
        let earlier = events.drop_last();
        lemma_auth_history(earlier);
        assert forall|i: int| 0 <= i < earlier.len() implies earlier[i] == events[i] by {}
    }
}

/// The action that a run gives to its `i`-th event is the decision taken
/// where the run of the events before it stands.
pub proof fn lemma_auth_run_action(events: Seq<AuthEventView>, i: int)
    requires
        0 <= i < events.len(),
    ensures
        auth_run(events).1.len() == events.len(),
        auth_run(events).1[i] == auth_step(auth_run(events.take(i)).0, events[i]).1,
    decreases events.len(),
{
    lemma_auth_history(events);
    let earlier = events.drop_last();
    lemma_auth_history(earlier);
    if i == events.len() - 1 {
        assert(events.take(i) =~= earlier);
    } else {
        lemma_auth_run_action(earlier, i);
        assert(earlier.take(i) =~= events.take(i));
    }
}

/// In every run, the wrapped handler is run at most once: in answer to the
/// second event, after a request arrived whose tokens were accepted against
/// its session record, and on behalf of the user that the record names, as
/// the user database found it.
pub proof fn lemma_handler_runs_only_for_accepted_requests(events: Seq<AuthEventView>, i: int)
    requires
        0 <= i < events.len(),
        auth_run(events).1[i] is CallHandler,
    ensures
        i == 1,
        exists|refresh: bool| #[trigger]
            request_accepted(events[0], auth_run(events).1[i]->CallHandler_user.id, refresh),
        events[1] == AuthEventView::UserLoaded(
            UserLookupView::Found(auth_run(events).1[i]->CallHandler_user),
        ),
{
    lemma_auth_run_action(events, i);
    let before = events.take(i);
    lemma_auth_history(before);
    let user = auth_run(events).1[i]->CallHandler_user;
    assert(auth_run(before).0 is LoadingUser);
    let refresh = auth_run(before).0->LoadingUser_refresh;
    assert(before[0] == events[0]);
    assert(request_accepted(events[0], user.id, refresh));
}

/// In every run, a response passes with new tokens only in answer to the
/// fifth event: the request's verdict asked for a refresh, the handler ran
/// for the record's user and produced a response, a record was minted for
/// that same user, and that very record was stored.
pub proof fn lemma_tokens_are_replaced_only_after_the_handler(
    events: Seq<AuthEventView>,
    i: int,
)
    requires
        0 <= i < events.len(),
        (auth_run(events).1[i] matches AuthActionView::PassResponse { rotated: Some(_) }),
    ensures
        i == 4,
        ({
            let record = auth_run(events).1[i]->PassResponse_rotated->Some_0;
            &&& request_accepted(events[0], record.user_id, true)
            &&& user_found(events[1], record.user_id)
            &&& events[2] == (AuthEventView::HandlerFinished { succeeded: true })
            &&& events[3] == AuthEventView::SessionMinted(Ok(record))
            &&& events[4] == (AuthEventView::SessionStored { succeeded: true })
        }),
{
    lemma_auth_run_action(events, i);
    let before = events.take(i);
    lemma_auth_history(before);
    assert(auth_run(before).0 is Storing);
    assert(before[0] == events[0]);
    assert(before[1] == events[1]);
    assert(before[2] == events[2]);
    assert(before[3] == events[3]);
}

/// In every run, a response passes without new tokens only in answer to the
/// third event: the request's access token was accepted as it is, and the
/// handler ran for the record's user and produced a response.
pub proof fn lemma_response_passes_unchanged_only_on_success(
    events: Seq<AuthEventView>,
    i: int,
)
    requires
        0 <= i < events.len(),
        auth_run(events).1[i] == (AuthActionView::PassResponse { rotated: None }),
    ensures
        i == 2,
        exists|user_id: u128| #[trigger]
            request_accepted(events[0], user_id, false) && user_found(events[1], user_id),
        events[2] == (AuthEventView::HandlerFinished { succeeded: true }),
{
    lemma_auth_run_action(events, i);
    let before = events.take(i);
    lemma_auth_history(before);
    assert(auth_run(before).0 is Handling);
    let user_id = auth_run(before).0->Handling_user_id;
    assert(before[0] == events[0]);
    assert(before[1] == events[1]);
    assert(request_accepted(events[0], user_id, false) && user_found(events[1], user_id));
}

/// A request that is refused on arrival never reaches the wrapped handler:
/// whatever is reported afterwards, the handler is not run, no record is
/// stored and no response passes.
pub proof fn lemma_refused_request_never_reaches_the_handler(events: Seq<AuthEventView>, i: int)
    requires
        0 <= i < events.len(),
        auth_run(events).1[0] is Reject,
    ensures
        !(auth_run(events).1[i] is CallHandler),
        !(auth_run(events).1[i] is StoreSession),
        !(auth_run(events).1[i] is PassResponse),
        i > 0 ==> auth_run(events).1[i] is Reject,
{
    lemma_auth_run_action(events, 0);
    lemma_auth_run_action(events, i);
    assert(events.take(0) =~= Seq::<AuthEventView>::empty());
    let first = events.take(1);
    assert(first.drop_last() =~= events.take(0));
    assert(first.last() == events[0]);
    assert(auth_run(first).0 is Finished);
    if i > 0 {
        assert(events.take(i).take(1) =~= first);
        lemma_finished_middleware_stays_finished(events.take(i), 1);
    }
}

/// A middleware that has finished stays finished.
pub proof fn lemma_finished_middleware_stays_finished(events: Seq<AuthEventView>, k: int)
    requires
        0 <= k <= events.len(),
        auth_run(events.take(k)).0 is Finished,
    ensures
        auth_run(events).0 is Finished,
    decreases events.len() - k,
{
    if k == events.len() {
        assert(events.take(k) =~= events);
    } else {
        assert(events.take(k + 1).drop_last() =~= events.take(k));
        assert(events.take(k + 1).last() == events[k]);
        lemma_finished_middleware_stays_finished(events, k + 1);
    }
}

} // verus!
