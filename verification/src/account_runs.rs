//! Whole runs of the account use cases: what holds of every sequence of
//! events that a use case may be handed, from its start.

use crate::accounts::{
    change_password_step, is_authentication_failure, login_step, signup_report, signup_step,
    ChangePasswordActionView, ChangePasswordEventView, ChangePasswordStateView, LoginActionView,
    LoginEventView, LoginStateView, PasswordStoreOutcome, SignupActionView, SignupError,
    SignupEventView, SignupStateView,
};
use crate::middleware::UserLookupView;
use crate::session::SessionCommandView;
use crate::users::UserView;
use vstd::prelude::*;

verus! {

/// Where a login stands and what it has answered after it was handed the
/// events one after the other, from its start.
pub open spec fn login_run(events: Seq<LoginEventView>) -> (LoginStateView, Seq<LoginActionView>)
    decreases events.len(),
{
    if events.len() == 0 {
        (LoginStateView::Start, Seq::empty())
    } else {
        let before = login_run(events.drop_last());
        let step = login_step(before.0, events.last());
        (step.0, before.1.push(step.1))
    }
}

/// The user that the second event reports as found.
pub open spec fn found_user(events: Seq<LoginEventView>) -> UserView {
    events[1]->UserLookedUp_0->Found_0
}

/// The first three events are those of a login that got past the checks of
/// the credentials: the request, the finding of a user, who is active, and
/// the acceptance of the password.
pub open spec fn credentials_accepted(events: Seq<LoginEventView>) -> bool {
    &&& events.len() >= 3
    &&& events[0] is Requested
    &&& events[1] matches LoginEventView::UserLookedUp(UserLookupView::Found(user))
        && user.is_active
    &&& events[2] matches LoginEventView::PasswordVerified(Some(Ok(_)))
}

/// What the state of a login tells about the events that led to it.
pub open spec fn login_history(events: Seq<LoginEventView>, state: LoginStateView) -> bool {
    match state {
        LoginStateView::Start => events.len() == 0,
        LoginStateView::FindingUser { raw_password } => {
            &&& events.len() == 1
            &&& events[0] matches LoginEventView::Requested { raw_password: presented, .. }
                && presented == raw_password
        },
        LoginStateView::Verifying { user } => {
            &&& events.len() == 2
            &&& events[0] is Requested
            &&& events[1] == LoginEventView::UserLookedUp(UserLookupView::Found(user))
        },
        LoginStateView::Minting { user_id } => {
            &&& events.len() == 3
            &&& credentials_accepted(events)
            &&& found_user(events).id == user_id
        },
        LoginStateView::Updating { session } => {
            &&& events.len() == 4
            &&& credentials_accepted(events)
            &&& found_user(events).id == session.user_id
            &&& events[3] == LoginEventView::SessionMinted(Ok(session))
        },
        LoginStateView::Establishing { session } => {
            &&& events.len() == 5
            &&& credentials_accepted(events)
            &&& found_user(events).id == session.user_id
            &&& events[3] == LoginEventView::SessionMinted(Ok(session))
            &&& events[4] == (LoginEventView::LastLoggedInUpdated { succeeded: true })
        },
        LoginStateView::Committing { session } => {
            &&& events.len() == 6
            &&& credentials_accepted(events)
            &&& found_user(events).id == session.user_id
            &&& events[3] == LoginEventView::SessionMinted(Ok(session))
            &&& events[4] == (LoginEventView::LastLoggedInUpdated { succeeded: true })
            &&& events[5] == (LoginEventView::SessionEstablished { succeeded: true })
        },
        LoginStateView::Finished => events.len() > 0,
    }
}

/// A run answers every event with one action, and its state tells the events
/// that led to it.
pub proof fn lemma_login_history(events: Seq<LoginEventView>)
    ensures
        login_run(events).1.len() == events.len(),
        login_history(events, login_run(events).0),
    decreases events.len(),
{
    if events.len() > 0 {
        let earlier = events.drop_last();
        lemma_login_history(earlier);
        assert forall|i: int| 0 <= i < earlier.len() implies earlier[i] == events[i] by {}
    }
}

/// The action that a run gives to its `i`-th event is the decision taken
/// where the run of the events before it stands.
pub proof fn lemma_login_run_action(events: Seq<LoginEventView>, i: int)
    requires
        0 <= i < events.len(),
    ensures
        login_run(events).1.len() == events.len(),
        login_run(events).1[i] == login_step(login_run(events.take(i)).0, events[i]).1,
        login_run(events.take(i + 1)).0 == login_step(login_run(events.take(i)).0, events[i]).0,
    decreases events.len(),
{
    lemma_login_history(events);
    let earlier = events.drop_last();
    lemma_login_history(earlier);
    assert(events.take(i + 1).drop_last() =~= events.take(i));
    if i == events.len() - 1 {
        assert(events.take(i) =~= earlier);
    } else {
        lemma_login_run_action(earlier, i);
        assert(earlier.take(i) =~= events.take(i));
    }
}

/// A login that has finished stays finished.
pub proof fn lemma_finished_login_stays_finished(events: Seq<LoginEventView>, k: int)
    requires
        0 <= k <= events.len(),
        login_run(events.take(k)).0 == LoginStateView::Finished,
    ensures
        login_run(events).0 == LoginStateView::Finished,
    decreases events.len() - k,
{
    if k == events.len() {
        assert(events.take(k) =~= events);
    } else {
        lemma_login_run_action(events, k);
        lemma_finished_login_stays_finished(events, k + 1);
    }
}

/// In every run of a login, the session is established only in answer to the
/// fifth event, under a new session identifier, with the record that was
/// minted for the user who was found, is active and whose password was
/// accepted. A login with a wrong password, for an unknown address or for a
/// user who is not active never establishes a session.
pub proof fn lemma_session_is_established_only_for_accepted_credentials(
    events: Seq<LoginEventView>,
    i: int,
)
    requires
        0 <= i < events.len(),
        login_run(events).1[i] is EstablishSession,
    ensures
        i == 4,
        credentials_accepted(events),
        login_run(events).1[i]->EstablishSession_command is RenewAndReplace,
        ({
            let session = login_run(events).1[i]->EstablishSession_command->RenewAndReplace_0;
            &&& found_user(events).id == session.user_id
            &&& events[3] == LoginEventView::SessionMinted(Ok(session))
            &&& events[4] == (LoginEventView::LastLoggedInUpdated { succeeded: true })
            &&& login_run(events.take(5)).0 == (LoginStateView::Establishing { session })
        }),
{
    lemma_login_run_action(events, i);
    let before = events.take(i);
    lemma_login_history(before);
    assert(login_run(before).0 is Updating);
    assert(before[0] == events[0]);
    assert(before[1] == events[1]);
    assert(before[2] == events[2]);
    assert(before[3] == events[3]);
}

/// In every run of a login, success is answered only to the seventh event:
/// the credentials were accepted, the instant of the login was written, the
/// session was established with the very record that is returned, and the
/// transaction was committed. The session is then left as established.
pub proof fn lemma_login_succeeds_only_after_every_step(events: Seq<LoginEventView>, i: int)
    requires
        0 <= i < events.len(),
        (login_run(events).1[i] matches LoginActionView::Finish { outcome: Ok(_), .. }),
    ensures
        i == 6,
        credentials_accepted(events),
        login_run(events).1[i]->Finish_command == SessionCommandView::Keep,
        ({
            let session = login_run(events).1[i]->Finish_outcome->Ok_0;
            &&& found_user(events).id == session.user_id
            &&& events[3] == LoginEventView::SessionMinted(Ok(session))
            &&& events[4] == (LoginEventView::LastLoggedInUpdated { succeeded: true })
            &&& events[5] == (LoginEventView::SessionEstablished { succeeded: true })
            &&& events[6] == (LoginEventView::Committed { succeeded: true })
            &&& login_run(events).1[4] == (LoginActionView::EstablishSession {
                command: SessionCommandView::RenewAndReplace(session),
            })
        }),
{
    lemma_login_run_action(events, i);
    let before = events.take(i);
    lemma_login_history(before);
    assert(login_run(before).0 is Committing);
    assert(before[0] == events[0]);
    assert(before[1] == events[1]);
    assert(before[2] == events[2]);
    assert(before[3] == events[3]);
    assert(before[4] == events[4]);
    assert(before[5] == events[5]);
    // where the login stood when the fifth event came
    let upto = events.take(4);
    assert(before.take(4) =~= upto);
    if login_run(upto).0 == LoginStateView::Finished {
        lemma_finished_login_stays_finished(before, 4);
    }
    lemma_login_history(upto);
    assert(upto[3] == events[3]);
    lemma_login_run_action(events, 4);
}

/// A login that ends in an error has either never established a session, or
/// ends with the demand to destroy the session: it leaves no session record
/// of its own behind.
pub proof fn lemma_failed_login_leaves_no_session(events: Seq<LoginEventView>, i: int)
    requires
        0 <= i < events.len(),
        login_run(events.take(i)).0 != LoginStateView::Finished,
        (login_run(events).1[i] matches LoginActionView::Finish { outcome: Err(_), .. }),
    ensures
        login_run(events).1[i]->Finish_command == SessionCommandView::Purge || (forall|j: int|
            0 <= j < i ==> !(#[trigger] login_run(events).1[j] is EstablishSession)),
{
    lemma_login_run_action(events, i);
    let before = events.take(i);
    lemma_login_history(before);
    if login_run(events).1[i]->Finish_command != SessionCommandView::Purge {
        // the login stood before the establishing of the session when it ended
        assert(i <= 4);
        assert forall|j: int| 0 <= j < i implies !(#[trigger] login_run(events).1[j]
            is EstablishSession) by {
            if login_run(events).1[j] is EstablishSession {
                lemma_session_is_established_only_for_accepted_credentials(events, j);
            }
        }
    }
}

/// Whatever the state and the event, a login that fails for want of
/// authentication ends with the demand to destroy the session, and one that
/// succeeds leaves the session as it was established.
pub proof fn lemma_unauthenticated_login_destroys_session(
    state: LoginStateView,
    event: LoginEventView,
)
    requires
        login_step(state, event).1 is Finish,
    ensures
        (login_step(state, event).1->Finish_outcome matches Err(e) && is_authentication_failure(e))
            ==> login_step(state, event).1->Finish_command == SessionCommandView::Purge,
        login_step(state, event).1->Finish_outcome is Ok ==> login_step(
            state,
            event,
        ).1->Finish_command == SessionCommandView::Keep,
        login_step(state, event).0 == LoginStateView::Finished,
{
}

/// Where a signup stands and what it has answered after it was handed the
/// events one after the other, from its start.
pub open spec fn signup_run(events: Seq<SignupEventView>) -> (
    SignupStateView,
    Seq<SignupActionView>,
)
    decreases events.len(),
{
    if events.len() == 0 {
        (SignupStateView::Start, Seq::empty())
    } else {
        let before = signup_run(events.drop_last());
        let step = signup_step(before.0, events.last());
        (step.0, before.1.push(step.1))
    }
}

/// What the state of a signup tells about the events that led to it.
pub open spec fn signup_history(events: Seq<SignupEventView>, state: SignupStateView) -> bool {
    match state {
        SignupStateView::Start => events.len() == 0,
        SignupStateView::FindingUser { id, user_name, email_address, password } => {
            &&& events.len() == 1
            &&& events[0] == (SignupEventView::Requested {
                id,
                user_name,
                email_address,
                password,
            })
        },
        SignupStateView::Hashing { id, user_name, email_address } => {
            &&& events.len() == 2
            &&& events[0] matches SignupEventView::Requested {
                id: wanted_id,
                user_name: wanted_name,
                email_address: wanted_address,
                ..
            } && wanted_id == id && wanted_name == user_name && wanted_address == email_address
            &&& events[1] == SignupEventView::UserLookedUp(UserLookupView::Missing)
        },
        SignupStateView::Inserting => {
            &&& events.len() == 3
            &&& events[0] is Requested
            &&& events[1] == SignupEventView::UserLookedUp(UserLookupView::Missing)
            &&& events[2] matches SignupEventView::PasswordHashed(Ok(_))
        },
        SignupStateView::Committing { stored } => {
            &&& events.len() == 4
            &&& events[0] is Requested
            &&& events[1] == SignupEventView::UserLookedUp(UserLookupView::Missing)
            &&& events[2] matches SignupEventView::PasswordHashed(Ok(_))
            &&& events[3] == SignupEventView::UserInserted(Some(stored))
        },
        SignupStateView::Finished => events.len() > 0,
    }
}

/// A run answers every event with one action, and its state tells the events
/// that led to it.
pub proof fn lemma_signup_history(events: Seq<SignupEventView>)
    ensures
        signup_run(events).1.len() == events.len(),
        signup_history(events, signup_run(events).0),
    decreases events.len(),
{
    if events.len() > 0 {
        let earlier = events.drop_last();
        lemma_signup_history(earlier);
        assert forall|i: int| 0 <= i < earlier.len() implies earlier[i] == events[i] by {}
    }
}

/// The action that a run gives to its `i`-th event is the decision taken
/// where the run of the events before it stands.
pub proof fn lemma_signup_run_action(events: Seq<SignupEventView>, i: int)
    requires
        0 <= i < events.len(),
    ensures
        signup_run(events).1.len() == events.len(),
        signup_run(events).1[i] == signup_step(signup_run(events.take(i)).0, events[i]).1,
    decreases events.len(),
{
    lemma_signup_history(events);
    let earlier = events.drop_last();
    lemma_signup_history(earlier);
    if i == events.len() - 1 {
        assert(events.take(i) =~= earlier);
    } else {
        lemma_signup_run_action(earlier, i);
        assert(earlier.take(i) =~= events.take(i));
    }
}

/// In every run of a signup, a user is stored only in answer to the third
/// event: no user had the e-mail address, and the password was hashed. The
/// user that is stored has the identifier, name and address of the request
/// and the hash that was reported, is active and has never logged in.
pub proof fn lemma_user_is_stored_only_for_a_free_address(events: Seq<SignupEventView>, i: int)
    requires
        0 <= i < events.len(),
        signup_run(events).1[i] is InsertUser,
    ensures
        i == 2,
        events[1] == SignupEventView::UserLookedUp(UserLookupView::Missing),
        ({
            let user = signup_run(events).1[i]->InsertUser_user;
            &&& events[0] matches SignupEventView::Requested { id, user_name, email_address, .. }
                && user.id == id && user.user_name == user_name && user.email_address
                == email_address
            &&& events[2] == SignupEventView::PasswordHashed(Ok(user.hashed_password))
            &&& user.is_active
            &&& user.last_logged_in is None
        }),
{
    lemma_signup_run_action(events, i);
    let before = events.take(i);
    lemma_signup_history(before);
    assert(signup_run(before).0 is Hashing);
    assert(before[0] == events[0]);
    assert(before[1] == events[1]);
}

/// In every run of a signup, `EmailAddressAlreadyExists` is answered only to
/// the second event, and exactly where the search by the e-mail address
/// found a user.
pub proof fn lemma_taken_address_is_refused(events: Seq<SignupEventView>, i: int)
    requires
        0 <= i < events.len(),
        signup_run(events).1[i] == SignupActionView::Finish(
            Err(SignupError::EmailAddressAlreadyExists),
        ),
    ensures
        i == 1,
        events[0] is Requested,
        events[1] matches SignupEventView::UserLookedUp(UserLookupView::Found(_)),
{
    lemma_signup_run_action(events, i);
    let before = events.take(i);
    lemma_signup_history(before);
    assert(signup_run(before).0 is FindingUser);
    assert(before[0] == events[0]);
}

/// In every run of a signup, success is answered only to the fifth event:
/// no user had the address, the password was hashed, the user was stored,
/// and the transaction was committed. What is reported is the user as the
/// database stored it.
pub proof fn lemma_signup_succeeds_only_after_every_step(events: Seq<SignupEventView>, i: int)
    requires
        0 <= i < events.len(),
        signup_run(events).1[i] matches SignupActionView::Finish(Ok(_)),
    ensures
        i == 4,
        events[0] is Requested,
        events[1] == SignupEventView::UserLookedUp(UserLookupView::Missing),
        events[2] matches SignupEventView::PasswordHashed(Ok(_)),
        events[3] matches SignupEventView::UserInserted(Some(stored)) && signup_report(stored)
            == Some(signup_run(events).1[i]->Finish_0->Ok_0),
        events[4] == (SignupEventView::Committed { succeeded: true }),
{
    lemma_signup_run_action(events, i);
    let before = events.take(i);
    lemma_signup_history(before);
    assert(signup_run(before).0 is Committing);
    assert(before[0] == events[0]);
    assert(before[1] == events[1]);
    assert(before[2] == events[2]);
    assert(before[3] == events[3]);
}

/// Whatever the state and the event, a change of password that ends
/// destroys the session exactly where it succeeds: on success the user has
/// to log in again, on any error the session stays as it is.
pub proof fn lemma_password_change_destroys_session_iff_it_succeeds(
    state: ChangePasswordStateView,
    event: ChangePasswordEventView,
)
    requires
        change_password_step(state, event).1 is Finish,
    ensures
        change_password_step(state, event).1->Finish_outcome is Ok ==> change_password_step(
            state,
            event,
        ).1->Finish_command == SessionCommandView::Purge,
        change_password_step(state, event).1->Finish_outcome is Err ==> change_password_step(
            state,
            event,
        ).1->Finish_command == SessionCommandView::Keep,
        change_password_step(state, event).0 == ChangePasswordStateView::Finished,
{
}

/// Where a change of password stands and what it has answered after it was
/// handed the events one after the other, from its start.
pub open spec fn change_password_run(events: Seq<ChangePasswordEventView>) -> (
    ChangePasswordStateView,
    Seq<ChangePasswordActionView>,
)
    decreases events.len(),
{
    if events.len() == 0 {
        (ChangePasswordStateView::Start, Seq::empty())
    } else {
        let before = change_password_run(events.drop_last());
        let step = change_password_step(before.0, events.last());
        (step.0, before.1.push(step.1))
    }
}

/// What the state of a change of password tells about the events that led
/// to it.
pub open spec fn change_password_history(
    events: Seq<ChangePasswordEventView>,
    state: ChangePasswordStateView,
) -> bool {
    match state {
        ChangePasswordStateView::Start => events.len() == 0,
        ChangePasswordStateView::Verifying { user_id, new_password } => {
            &&& events.len() == 1
            &&& events[0] matches ChangePasswordEventView::Requested {
                user,
                new_password: wanted,
                ..
            } && user.id == user_id && wanted == new_password
        },
        ChangePasswordStateView::Hashing { user_id } => {
            &&& events.len() == 2
            &&& events[0] matches ChangePasswordEventView::Requested { user, .. } && user.id
                == user_id
            &&& events[1] matches ChangePasswordEventView::PasswordVerified(Some(Ok(_)))
        },
        ChangePasswordStateView::Storing { user_id } => {
            &&& events.len() == 3
            &&& events[0] matches ChangePasswordEventView::Requested { user, .. } && user.id
                == user_id
            &&& events[1] matches ChangePasswordEventView::PasswordVerified(Some(Ok(_)))
            &&& events[2] matches ChangePasswordEventView::PasswordHashed(Ok(_))
        },
        ChangePasswordStateView::Committing => {
            &&& events.len() == 4
            &&& events[0] is Requested
            &&& events[1] matches ChangePasswordEventView::PasswordVerified(Some(Ok(_)))
            &&& events[2] matches ChangePasswordEventView::PasswordHashed(Ok(_))
            &&& events[3] == ChangePasswordEventView::PasswordStored(PasswordStoreOutcome::Stored)
        },
        ChangePasswordStateView::Finished => events.len() > 0,
    }
}

/// A run answers every event with one action, and its state tells the events
/// that led to it.
pub proof fn lemma_change_password_history(events: Seq<ChangePasswordEventView>)
    ensures
        change_password_run(events).1.len() == events.len(),
        change_password_history(events, change_password_run(events).0),
    decreases events.len(),
{
    if events.len() > 0 {
        let earlier = events.drop_last();
        lemma_change_password_history(earlier);
        assert forall|i: int| 0 <= i < earlier.len() implies earlier[i] == events[i] by {}
    }
}

/// The action that a run gives to its `i`-th event is the decision taken
/// where the run of the events before it stands.
pub proof fn lemma_change_password_run_action(events: Seq<ChangePasswordEventView>, i: int)
    requires
        0 <= i < events.len(),
    ensures
        change_password_run(events).1.len() == events.len(),
        change_password_run(events).1[i] == change_password_step(
            change_password_run(events.take(i)).0,
            events[i],
        ).1,
    decreases events.len(),
{
    lemma_change_password_history(events);
    let earlier = events.drop_last();
    lemma_change_password_history(earlier);
    if i == events.len() - 1 {
        assert(events.take(i) =~= earlier);
    } else {
        lemma_change_password_run_action(earlier, i);
        assert(earlier.take(i) =~= events.take(i));
    }
}

/// In every run of a change of password, a new hash is written only in
/// answer to the third event: the current password was checked against the
/// user's hash and accepted, and the hash that is written is the one that
/// was reported for the new password, written to the user of the request.
pub proof fn lemma_password_is_changed_only_after_verification(
    events: Seq<ChangePasswordEventView>,
    i: int,
)
    requires
        0 <= i < events.len(),
        change_password_run(events).1[i] is StorePassword,
    ensures
        i == 2,
        events[1] matches ChangePasswordEventView::PasswordVerified(Some(Ok(_))),
        ({
            let action = change_password_run(events).1[i];
            &&& events[0] matches ChangePasswordEventView::Requested { user, .. } && user.id
                == action->StorePassword_user_id
            &&& events[2] == ChangePasswordEventView::PasswordHashed(
                Ok(action->StorePassword_hashed_password),
            )
        }),
{
    lemma_change_password_run_action(events, i);
    let before = events.take(i);
    lemma_change_password_history(before);
    assert(change_password_run(before).0 is Hashing);
    assert(before[0] == events[0]);
    assert(before[1] == events[1]);
}

/// In every run of a change of password, success is answered only to the
/// fifth event: the current password was accepted, the new password was
/// hashed, the hash was written to the user, and the transaction was
/// committed. The session is then destroyed.
pub proof fn lemma_password_change_succeeds_only_after_every_step(
    events: Seq<ChangePasswordEventView>,
    i: int,
)
    requires
        0 <= i < events.len(),
        (change_password_run(events).1[i] matches ChangePasswordActionView::Finish {
            outcome: Ok(_),
            ..
        }),
    ensures
        i == 4,
        events[0] is Requested,
        events[1] matches ChangePasswordEventView::PasswordVerified(Some(Ok(_))),
        events[2] matches ChangePasswordEventView::PasswordHashed(Ok(_)),
        events[3] == ChangePasswordEventView::PasswordStored(PasswordStoreOutcome::Stored),
        events[4] == (ChangePasswordEventView::Committed { succeeded: true }),
        change_password_run(events).1[i]->Finish_command == SessionCommandView::Purge,
{
    lemma_change_password_run_action(events, i);
    let before = events.take(i);
    lemma_change_password_history(before);
    assert(change_password_run(before).0 is Committing);
    assert(before[0] == events[0]);
    assert(before[1] == events[1]);
    assert(before[2] == events[2]);
    assert(before[3] == events[3]);
}

} // verus!
