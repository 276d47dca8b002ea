//! What holds of every session, whatever its driver reports.

use crate::session::{
    holds_transport, session_step, SessionActionView, SessionEventView, SessionStateView,
};
use vstd::prelude::*;

verus! {

/// The state of a session after `events`, taken in order from `state`, and
/// the actions that answered them.
pub open spec fn session_run(state: SessionStateView, events: Seq<SessionEventView>) -> (
    SessionStateView,
    Seq<SessionActionView>,
)
    decreases events.len(),
{
    if events.len() == 0 {
        (state, Seq::empty())
    } else {
        let before = session_run(state, events.drop_last());
        let after = session_step(before.0, events.last());
        (after.0, before.1.push(after.1))
    }
}

/// Whether the first answer of a fresh session was to shake hands: the
/// connect went through, and the session got hold of a transport.
pub open spec fn connected(actions: Seq<SessionActionView>) -> bool {
    actions.len() > 0 && actions[0] == SessionActionView::Handshake
}

/// Whether a request to take the transport down stands before place `at`.
pub open spec fn cancelled_before(actions: Seq<SessionActionView>, at: int) -> bool {
    exists|k: int| 0 <= k < at && #[trigger] actions[k] == SessionActionView::Cancel
}

spec fn shaped(state: SessionStateView, actions: Seq<SessionActionView>) -> bool {
    &&& state is Connecting ==> actions.len() == 0
    &&& holds_transport(state) ==> connected(actions)
    &&& state is Closing ==> cancelled_before(actions, actions.len() as int)
    &&& state is Finished && connected(actions) ==> cancelled_before(
        actions,
        actions.len() as int,
    )
    &&& forall|i: int|
        0 <= i < actions.len() ==> actions[i] != SessionActionView::Connect && ((
        #[trigger] actions[i]) is Finish && connected(actions) ==> cancelled_before(actions, i))
}

proof fn lemma_run_is_shaped(events: Seq<SessionEventView>)
    ensures
        session_run(SessionStateView::Connecting, events).1.len() == events.len(),
        shaped(
            session_run(SessionStateView::Connecting, events).0,
            session_run(SessionStateView::Connecting, events).1,
        ),
    decreases events.len(),
{
    if events.len() > 0 {
        lemma_run_is_shaped(events.drop_last());
        let before = session_run(SessionStateView::Connecting, events.drop_last());
        let after = session_step(before.0, events.last());
        let actions = before.1.push(after.1);
        assert(session_run(SessionStateView::Connecting, events) == (after.0, actions));
        assert forall|i: int| 0 <= i < before.1.len() implies actions[i] == before.1[i] by {}
        if before.1.len() > 0 {
            assert(connected(actions) == connected(before.1));
        }
        if cancelled_before(before.1, before.1.len() as int) {
            let k = choose|k: int|
                0 <= k < before.1.len() && #[trigger] before.1[k] == SessionActionView::Cancel;
            assert(actions[k] == SessionActionView::Cancel);
            assert(cancelled_before(actions, before.1.len() as int));
            assert(cancelled_before(actions, actions.len() as int));
        }
        if after.1 == SessionActionView::Cancel {
            assert(actions[before.1.len() as int] == SessionActionView::Cancel);
            assert(cancelled_before(actions, actions.len() as int));
        }
        assert forall|i: int| 0 <= i < actions.len() implies actions[i]
            != SessionActionView::Connect && ((#[trigger] actions[i]) is Finish && connected(
            actions,
        ) ==> cancelled_before(actions, i)) by {
            if i < before.1.len() {
                if before.1[i] is Finish && connected(before.1) {
                    let k = choose|k: int|
                        0 <= k < i && #[trigger] before.1[k] == SessionActionView::Cancel;
                    assert(actions[k] == SessionActionView::Cancel);
                }
            }
        }
    }
}

/// A session connects once and takes down what it brought up.
///
/// Whatever the driver reports to a fresh session, in whatever order: the
/// session never asks to connect again; it holds a transport only after a
/// connect went through; and where one did, every answer that ends the
/// session stands after a request to take the transport down. So no
/// transport outlives the session that brought it up, whether the
/// invocation went well or not.
pub proof fn lemma_session_takes_down_its_transport(events: Seq<SessionEventView>)
    ensures
        ({
            let run = session_run(SessionStateView::Connecting, events);
            &&& run.1.len() == events.len()
            &&& holds_transport(run.0) ==> connected(run.1)
            &&& forall|i: int|
                0 <= i < run.1.len() ==> (#[trigger] run.1[i]) != SessionActionView::Connect
            &&& forall|i: int|
                0 <= i < run.1.len() && (#[trigger] run.1[i]) is Finish && connected(run.1)
                    ==> cancelled_before(run.1, i)
        }),
{
    lemma_run_is_shaped(events);
}

/// Once the result of an invocation is settled, the way the session ends
/// does not change it: a request to end the session that fails hands back
/// the same result as one that goes through.
pub proof fn lemma_result_survives_cancel(
    outcome: Result<Seq<char>, crate::session::SessionError>,
    event: SessionEventView,
)
    requires
        event is Cancelled || event is CancelFailed,
    ensures
        session_step(SessionStateView::Closing(outcome), event) == (
            SessionStateView::Finished(outcome),
            SessionActionView::Finish(outcome),
        ),
{
}

} // verus!
