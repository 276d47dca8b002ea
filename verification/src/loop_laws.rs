//! What holds of every run of the orchestration loop.

use crate::conversation::{
    answers_call, answers_token, assistant_message, correlated, tool_result, ChoiceView,
    MessageView, Role,
};
use crate::orchestration::{
    answered, dispatch, finished, is_first_named, loop_step, take_up, ActionView, EventView,
    LoopErrorView, LoopView, OutcomeView, StageView,
};
use crate::tool::ToolView;
use vstd::prelude::*;

verus! {

/// One round as the driver of the loop plays it: the turn that the model
/// returns, and the texts that the tools answer with, one for each call of
/// the turn's primary choice, in the order of the calls.
pub ghost struct Round {
    pub turn: Seq<ChoiceView>,
    pub answers: Seq<Seq<char>>,
}

/// Whether the primary choice of `turn` asks for a tool call.
pub open spec fn bears_calls(turn: Seq<ChoiceView>) -> bool {
    turn.len() > 0 && turn[0].tool_calls.len() > 0
}

/// The loop after the tools have answered with `answers`, one after the
/// other.
pub open spec fn after_answers(state: LoopView, answers: Seq<Seq<char>>) -> LoopView
    decreases answers.len(),
{
    if answers.len() == 0 {
        state
    } else {
        loop_step(
            after_answers(state, answers.drop_last()),
            EventView::ToolFinished(Ok(answers.last())),
        ).0
    }
}

/// The loop after one round: the model's turn, then the answers of the
/// tools.
pub open spec fn after_round(state: LoopView, round: Round) -> LoopView {
    after_answers(loop_step(state, EventView::ModelReplied(round.turn)).0, round.answers)
}

/// The loop after `rounds`, one after the other.
pub open spec fn after_rounds(state: LoopView, rounds: Seq<Round>) -> LoopView
    decreases rounds.len(),
{
    if rounds.len() == 0 {
        state
    } else {
        after_round(after_rounds(state, rounds.drop_last()), rounds.last())
    }
}

/// Whether `round` is a round of tool calls that all go through: its turn
/// asks for calls, every call names a tool of `catalog` and carries
/// arguments that decode, and every call is answered.
pub open spec fn served(catalog: Seq<ToolView>, round: Round) -> bool {
    &&& bears_calls(round.turn)
    &&& round.answers.len() == round.turn[0].tool_calls.len()
    &&& forall|i: int|
        0 <= i < round.turn[0].tool_calls.len() ==> dispatch(
            catalog,
            #[trigger] round.turn[0].tool_calls[i],
        ) is Ok
}

/// What a served round adds to the conversation: the assistant message
/// that asks for the calls, then one tool message per call, in the order
/// of the calls, each with the answer to its call under the token of that
/// call.
pub open spec fn round_record(round: Round) -> Seq<MessageView> {
    seq![assistant_message(round.turn[0])] + Seq::new(
        round.answers.len(),
        |i: int| tool_result(round.answers[i], round.turn[0].tool_calls[i].call_id),
    )
}

proof fn lemma_answers_in_turn(state: LoopView, round: Round, k: int)
    requires
        state.stage is AwaitingModel,
        served(state.catalog, round),
        0 <= k <= round.answers.len(),
    ensures
        ({
            let entered = loop_step(state, EventView::ModelReplied(round.turn)).0;
            let reached = after_answers(entered, round.answers.take(k));
            let request = assistant_message(round.turn[0]);
            &&& reached.catalog == state.catalog
            &&& k < round.answers.len() ==> reached.stage == (StageView::ExecutingTools {
                request,
                next: k as nat,
            })
            &&& k == round.answers.len() ==> reached.stage is AwaitingModel
            &&& k == 0 ==> reached.conversation == state.conversation
            &&& k > 0 ==> reached.conversation == state.conversation + round_record(round).take(
                k + 1,
            )
        }),
    decreases k,
{
    let entered = loop_step(state, EventView::ModelReplied(round.turn)).0;
    let request = assistant_message(round.turn[0]);
    let calls = round.turn[0].tool_calls;
    let record = round_record(round);
    if k == 0 {
        assert(round.answers.take(0) =~= Seq::empty());
        assert(dispatch(state.catalog, calls[0]) is Ok);
    } else {
        lemma_answers_in_turn(state, round, k - 1);
        let taken = round.answers.take(k);
        assert(taken.drop_last() =~= round.answers.take(k - 1));
        assert(taken.last() == round.answers[k - 1]);
        let before = after_answers(entered, round.answers.take(k - 1));
        let reached = after_answers(entered, taken);
        assert(reached == loop_step(before, EventView::ToolFinished(Ok(round.answers[k - 1]))).0);
        assert(before.stage == (StageView::ExecutingTools { request, next: (k - 1) as nat }));
        let text = round.answers[k - 1];
        let grown = answered(before.conversation, request, (k - 1) as nat, text);
        assert(record[k] == tool_result(text, calls[k - 1].call_id));
        assert(record[0] == request);
        if k == 1 {
            assert(grown =~= state.conversation + record.take(2));
        } else {
            assert(grown =~= state.conversation + record.take(k + 1));
        }
        if k < round.answers.len() {
            assert(dispatch(state.catalog, calls[k]) is Ok);
        }
        assert(reached.conversation == grown);
    }
}

/// A served round is played to its end: the loop is back with the model,
/// over the same catalog, and the conversation has grown by exactly the
/// record of the round.
pub proof fn lemma_served_round(state: LoopView, round: Round)
    requires
        state.stage is AwaitingModel,
        served(state.catalog, round),
    ensures
        after_round(state, round).stage is AwaitingModel,
        after_round(state, round).catalog == state.catalog,
        after_round(state, round).conversation == state.conversation + round_record(round),
{
    let all = round.answers.len() as int;
    lemma_answers_in_turn(state, round, all);
    assert(round.answers.take(all) =~= round.answers);
    assert(round_record(round).take(all + 1) =~= round_record(round));
}

/// Every call of a served round is dispatched, in the order in which the
/// model asked for the calls: the answer to the model's turn is to invoke
/// the tool of the first call, the answer to each tool's text is to invoke
/// the tool of the next call, and the answer to the last text is to submit
/// the conversation again. None is passed over.
pub proof fn lemma_calls_are_dispatched_in_order(state: LoopView, round: Round, k: int)
    requires
        state.stage is AwaitingModel,
        served(state.catalog, round),
        0 <= k < round.answers.len(),
    ensures
        ({
            let replied = loop_step(state, EventView::ModelReplied(round.turn));
            let calls = round.turn[0].tool_calls;
            let answer = loop_step(
                after_answers(replied.0, round.answers.take(k)),
                EventView::ToolFinished(Ok(round.answers[k])),
            ).1;
            &&& replied.1 == ActionView::Invoke(dispatch(state.catalog, calls[0])->Ok_0)
            &&& k + 1 < calls.len() ==> answer == ActionView::Invoke(
                dispatch(state.catalog, calls[k + 1])->Ok_0,
            )
            &&& k + 1 == calls.len() ==> answer == ActionView::SubmitToModel
        }),
{
    let calls = round.turn[0].tool_calls;
    lemma_answers_in_turn(state, round, k);
    assert(dispatch(state.catalog, calls[0]) is Ok);
    if k + 1 < calls.len() {
        assert(dispatch(state.catalog, calls[k + 1]) is Ok);
    }
}

/// The loop ends after as many rounds as there are turns that ask for
/// calls, and one more.
///
/// Where every round of `rounds` is served and the turn `last` that
/// follows them asks for no call, the loop is with the model before each
/// of these turns and is over right after `last`, not sooner and not
/// later: with the primary choice of `last` as the answer, or, where `last`
/// holds no choice, with nothing to do.
pub proof fn lemma_loop_ends_after_last_turn(
    state: LoopView,
    rounds: Seq<Round>,
    last: Seq<ChoiceView>,
)
    requires
        state.stage is AwaitingModel,
        forall|k: int| 0 <= k < rounds.len() ==> served(state.catalog, #[trigger] rounds[k]),
        !bears_calls(last),
    ensures
        forall|k: int|
            0 <= k <= rounds.len() ==> (#[trigger] after_rounds(
                state,
                rounds.take(k),
            )).stage is AwaitingModel,
        loop_step(after_rounds(state, rounds), EventView::ModelReplied(last)) == ({
            let outcome = if last.len() == 0 {
                OutcomeView::EmptyChoices
            } else {
                OutcomeView::Answer(assistant_message(last[0]))
            };
            (
                LoopView { stage: StageView::Finished(outcome), ..after_rounds(state, rounds) },
                ActionView::Finish(outcome),
            )
        }),
{
    assert forall|k: int| 0 <= k <= rounds.len() implies (#[trigger] after_rounds(
        state,
        rounds.take(k),
    )).stage is AwaitingModel by {
        lemma_rounds_return_to_model(state, rounds, k);
    }
    lemma_rounds_return_to_model(state, rounds, rounds.len() as int);
    assert(rounds.take(rounds.len() as int) =~= rounds);
}

proof fn lemma_rounds_return_to_model(state: LoopView, rounds: Seq<Round>, k: int)
    requires
        state.stage is AwaitingModel,
        forall|i: int| 0 <= i < rounds.len() ==> served(state.catalog, #[trigger] rounds[i]),
        0 <= k <= rounds.len(),
    ensures
        after_rounds(state, rounds.take(k)).stage is AwaitingModel,
        after_rounds(state, rounds.take(k)).catalog == state.catalog,
    decreases k,
{
    if k > 0 {
        lemma_rounds_return_to_model(state, rounds, k - 1);
        let taken = rounds.take(k);
        assert(taken.drop_last() =~= rounds.take(k - 1));
        assert(taken.last() == rounds[k - 1]);
        lemma_served_round(after_rounds(state, rounds.take(k - 1)), rounds[k - 1]);
    }
}

/// Whether the conversation of `state` ends with what the turn under way
/// has recorded so far: nothing before its first answer, and after that the
/// request followed by the answers to the calls before the one in flight.
pub open spec fn turn_recorded(state: LoopView) -> bool {
    match state.stage {
        StageView::ExecutingTools { request, next } => {
            let at = state.conversation.len() - 1 - next;
            &&& next < request.tool_calls.len()
            &&& request.role == Role::Assistant
            &&& next > 0 ==> {
                &&& at >= 0
                &&& state.conversation[at] == request
                &&& answers_call(state.conversation, at, at + next)
            }
        },
        _ => true,
    }
}

proof fn lemma_push_keeps_answers(
    conversation: Seq<MessageView>,
    message: MessageView,
    request_at: int,
    result_at: int,
)
    requires
        answers_call(conversation, request_at, result_at),
    ensures
        answers_call(conversation.push(message), request_at, result_at),
{
    let grown = conversation.push(message);
    assert forall|k: int| request_at < k <= result_at implies answers_token(
        #[trigger] grown[k],
        grown[request_at].tool_calls[k - request_at - 1].call_id,
    ) by {
        assert(grown[k] == conversation[k]);
    }
}

proof fn lemma_push_keeps_correlation(conversation: Seq<MessageView>, message: MessageView)
    requires
        correlated(conversation),
        message.role != Role::Tool || exists|a: int|
            answers_call(conversation.push(message), a, conversation.len() as int),
    ensures
        correlated(conversation.push(message)),
{
    let grown = conversation.push(message);
    assert forall|j: int| 0 <= j < grown.len() && (#[trigger] grown[j]).role
        == Role::Tool implies exists|a: int| answers_call(grown, a, j) by {
        if j < conversation.len() {
            assert(grown[j] == conversation[j]);
            let a = choose|a: int| answers_call(conversation, a, j);
            lemma_push_keeps_answers(conversation, message, a, j);
        }
    }
}

proof fn lemma_step_keeps_correlation(state: LoopView, event: EventView)
    requires
        correlated(state.conversation),
        turn_recorded(state),
    ensures
        correlated(loop_step(state, event).0.conversation),
        turn_recorded(loop_step(state, event).0),
        loop_step(state, event).0.catalog == state.catalog,
{
    match state.stage {
        StageView::ExecutingTools { request, next } => {
            match event {
                EventView::ToolFinished(Ok(text)) => {
                    let result = tool_result(text, request.tool_calls[next as int].call_id);
                    let grown = answered(state.conversation, request, next, text);
                    let last = grown.len() - 1;
                    let at = last - 1 - next;
                    if next == 0 {
                        let recorded = state.conversation.push(request);
                        lemma_push_keeps_correlation(state.conversation, request);
                        assert(grown == recorded.push(result));
                        assert(grown[at] == request);
                        assert(answers_call(grown, at, last));
                        lemma_push_keeps_correlation(recorded, result);
                    } else {
                        let old_at = state.conversation.len() - 1 - next;
                        assert(at == old_at);
                        lemma_push_keeps_answers(state.conversation, result, at, at + next);
                        assert(grown == state.conversation.push(result));
                        assert forall|k: int| at < k <= last implies answers_token(
                            #[trigger] grown[k],
                            grown[at].tool_calls[k - at - 1].call_id,
                        ) by {
                            if k < last {
                                assert(answers_call(grown, at, at + next));
                            }
                        }
                        assert(answers_call(grown, at, last));
                        lemma_push_keeps_correlation(state.conversation, result);
                    }
                    assert(grown[at] == request);
                    assert(answers_call(grown, at, at + (next + 1)));
                },
                _ => {},
            }
        },
        _ => {},
    }
}

/// The loop after `events`, taken in order from `state`.
pub open spec fn loop_run(state: LoopView, events: Seq<EventView>) -> LoopView
    decreases events.len(),
{
    if events.len() == 0 {
        state
    } else {
        loop_step(loop_run(state, events.drop_last()), events.last()).0
    }
}

proof fn lemma_run_keeps_correlation(state: LoopView, events: Seq<EventView>)
    requires
        correlated(state.conversation),
        turn_recorded(state),
    ensures
        correlated(loop_run(state, events).conversation),
        turn_recorded(loop_run(state, events)),
        loop_run(state, events).catalog == state.catalog,
    decreases events.len(),
{
    if events.len() > 0 {
        lemma_run_keeps_correlation(state, events.drop_last());
        lemma_step_keeps_correlation(loop_run(state, events.drop_last()), events.last());
    }
}

/// Tool results stay correlated with the calls they answer.
///
/// Start the loop on a conversation in which every tool message answers a
/// call of an assistant message before it, under the token of that call.
/// Then whatever the driver reports, in whatever order, the same holds of
/// the conversation at every moment: each tool message that the loop adds
/// carries the token of the call that was dispatched for it, stands behind
/// the assistant message that asked for the call, at the place of that
/// call among the calls of the message; and no tool message is added for
/// a call that was not dispatched. The catalog never changes.
pub proof fn lemma_results_stay_correlated(state: LoopView, events: Seq<EventView>)
    requires
        state.stage is AwaitingModel,
        correlated(state.conversation),
    ensures
        correlated(loop_run(state, events).conversation),
        loop_run(state, events).catalog == state.catalog,
{
    lemma_run_keeps_correlation(state, events);
}

/// An answer is recorded under the token of the call in flight, and of no
/// other: when a tool's text comes in, the conversation grows by the
/// request, where this is the first answer to it, and by the tool message
/// that carries the text and the token of the call that was invoked.
pub proof fn lemma_answer_carries_token_of_its_call(
    state: LoopView,
    request: MessageView,
    next: nat,
    text: Seq<char>,
)
    requires
        state.stage == (StageView::ExecutingTools { request, next }),
    ensures
        ({
            let grown = loop_step(state, EventView::ToolFinished(Ok(text))).0.conversation;
            let call = request.tool_calls[next as int];
            &&& grown.last() == tool_result(text, call.call_id)
            &&& next == 0 ==> grown == state.conversation.push(request).push(
                tool_result(text, call.call_id),
            )
            &&& next > 0 ==> grown == state.conversation.push(tool_result(text, call.call_id))
        }),
{
}

/// A call to a tool that the catalog does not hold ends the round before
/// any tool is invoked for it: whichever call of a turn it is, taking it
/// up comes to finishing with `ToolNotFound` for that call, and nothing
/// else of the loop changes. No invocation is asked for.
pub proof fn lemma_unknown_tool_is_rejected(state: LoopView, request: MessageView, next: nat)
    requires
        forall|i: int|
            0 <= i < state.catalog.len() ==> (#[trigger] state.catalog[i]).name
                != request.tool_calls[next as int].tool_name,
    ensures
        take_up(state, request, next) == finished(
            state,
            OutcomeView::Failed(
                LoopErrorView::ToolNotFound {
                    call_id: request.tool_calls[next as int].call_id,
                    tool_name: request.tool_calls[next as int].tool_name,
                },
            ),
        ),
        !(take_up(state, request, next).1 is Invoke),
{
    let name = request.tool_calls[next as int].tool_name;
    assert forall|i: int| !is_first_named(state.catalog, name, i) by {
        if 0 <= i < state.catalog.len() {
            assert(state.catalog[i].name != name);
        }
    }
}

/// A turn whose first call names a tool that the catalog does not hold
/// ends the loop at once: the answer to the turn is to finish with
/// `ToolNotFound`, and the conversation is as it was.
pub proof fn lemma_turn_with_unknown_tool_ends_the_loop(state: LoopView, turn: Seq<ChoiceView>)
    requires
        state.stage is AwaitingModel,
        bears_calls(turn),
        forall|i: int|
            0 <= i < state.catalog.len() ==> (#[trigger] state.catalog[i]).name
                != turn[0].tool_calls[0].tool_name,
    ensures
        loop_step(state, EventView::ModelReplied(turn)) == finished(
            state,
            OutcomeView::Failed(
                LoopErrorView::ToolNotFound {
                    call_id: turn[0].tool_calls[0].call_id,
                    tool_name: turn[0].tool_calls[0].tool_name,
                },
            ),
        ),
{
    lemma_unknown_tool_is_rejected(state, assistant_message(turn[0]), 0);
}

} // verus!
