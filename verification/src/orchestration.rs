//! The orchestration loop: the conversation is submitted to the model, the
//! tool calls of its turn are dispatched one by one in the order the model
//! asked for them, their results are appended, and the conversation is
//! submitted again, until the model answers without asking for a call.
//!
//! The loop is a machine that is told what happened and answers what to do
//! next. The submission to the model and the invocation of a tool are done
//! by whoever drives it. The machine sets no limit on the number of rounds:
//! a model that asks for calls in every turn keeps it going, and a driver
//! that wants a limit counts its submissions and stops.

use crate::arguments::{argument_entries, decode_arguments, decoded_object, ArgumentDecodeError};
use crate::conversation::{
    assistant_message, message_views, tool_result, ChoiceView, Message,
    MessageView, ModelTurn, ToolCallRequest, ToolCallView,
};
use crate::schema::FunctionSchema;
use crate::session::{outcome_view, SessionError};
use crate::tool::{schema_of, tool_views, Tool, ToolView};
use serde_json::Value;
use vstd::prelude::*;

verus! {

/// Why the loop gave up. Every failure ends the loop; none is retried.
#[derive(Debug, PartialEq, Eq)]
pub enum LoopError {
    /// The submission to the model failed.
    Collaborator,
    /// The model asked for a tool that the catalog does not hold.
    ToolNotFound { call_id: String, tool_name: String },
    /// The arguments of a call were not the text of a JSON object.
    ArgumentDecode { call_id: String, tool_name: String },
    /// The session that invoked a tool failed.
    Session { call_id: String, tool_name: String, error: SessionError },
}

/// The mathematical content of a [`LoopError`].
pub ghost enum LoopErrorView {
    Collaborator,
    ToolNotFound { call_id: Seq<char>, tool_name: Seq<char> },
    ArgumentDecode { call_id: Seq<char>, tool_name: Seq<char> },
    Session { call_id: Seq<char>, tool_name: Seq<char>, error: SessionError },
}

impl View for LoopError {
    type V = LoopErrorView;

    open spec fn view(&self) -> LoopErrorView {
        match self {
            LoopError::Collaborator => LoopErrorView::Collaborator,
            LoopError::ToolNotFound { call_id, tool_name } => LoopErrorView::ToolNotFound {
                call_id: call_id@,
                tool_name: tool_name@,
            },
            LoopError::ArgumentDecode { call_id, tool_name } => LoopErrorView::ArgumentDecode {
                call_id: call_id@,
                tool_name: tool_name@,
            },
            LoopError::Session { call_id, tool_name, error } => LoopErrorView::Session {
                call_id: call_id@,
                tool_name: tool_name@,
                error: *error,
            },
        }
    }
}

impl Clone for LoopError {
    fn clone(&self) -> (copy: Self)
        ensures
            copy@ == self@,
    {
        match self {
            LoopError::Collaborator => LoopError::Collaborator,
            LoopError::ToolNotFound { call_id, tool_name } => LoopError::ToolNotFound {
                call_id: call_id.clone(),
                tool_name: tool_name.clone(),
            },
            LoopError::ArgumentDecode { call_id, tool_name } => LoopError::ArgumentDecode {
                call_id: call_id.clone(),
                tool_name: tool_name.clone(),
            },
            LoopError::Session { call_id, tool_name, error } => LoopError::Session {
                call_id: call_id.clone(),
                tool_name: tool_name.clone(),
                error: *error,
            },
        }
    }
}

/// How the loop ended.
#[derive(Debug, PartialEq, Eq)]
pub enum Outcome {
    /// The model answered without asking for a tool call.
    Answer(Message),
    /// The model returned a turn without choices: there was nothing to do.
    EmptyChoices,
    /// The loop gave up.
    Failed(LoopError),
}

/// The mathematical content of an [`Outcome`].
pub ghost enum OutcomeView {
    Answer(MessageView),
    EmptyChoices,
    Failed(LoopErrorView),
}

impl View for Outcome {
    type V = OutcomeView;

    open spec fn view(&self) -> OutcomeView {
        match self {
            Outcome::Answer(message) => OutcomeView::Answer(message@),
            Outcome::EmptyChoices => OutcomeView::EmptyChoices,
            Outcome::Failed(error) => OutcomeView::Failed(error@),
        }
    }
}

impl Clone for Outcome {
    fn clone(&self) -> (copy: Self)
        ensures
            copy@ == self@,
    {
        match self {
            Outcome::Answer(message) => Outcome::Answer(message.clone()),
            Outcome::EmptyChoices => Outcome::EmptyChoices,
            Outcome::Failed(error) => Outcome::Failed(error.clone()),
        }
    }
}

/// What the driver of the loop reports back.
#[derive(Debug, PartialEq, Eq)]
pub enum Event {
    /// The model returned a turn.
    ModelReplied(ModelTurn),
    /// The submission to the model failed.
    ModelFailed,
    /// The session that invoked the tool is over, with this result.
    ToolFinished(Result<String, SessionError>),
}

/// The mathematical content of an [`Event`].
pub ghost enum EventView {
    ModelReplied(Seq<ChoiceView>),
    ModelFailed,
    ToolFinished(Result<Seq<char>, SessionError>),
}

impl View for Event {
    type V = EventView;

    open spec fn view(&self) -> EventView {
        match self {
            Event::ModelReplied(turn) => EventView::ModelReplied(turn@),
            Event::ModelFailed => EventView::ModelFailed,
            Event::ToolFinished(result) => EventView::ToolFinished(outcome_view(*result)),
        }
    }
}

/// What the driver of the loop is to do next.
#[derive(Debug, PartialEq, Eq)]
pub enum Action {
    /// Submit the conversation and the schemas of the catalog to the model.
    SubmitToModel,
    /// Open a fresh session for this copy of a tool and invoke it with the
    /// arguments that the copy holds.
    Invoke(Tool),
    /// Nothing more: the loop is over.
    Finish(Outcome),
}

/// The mathematical content of an [`Action`].
pub ghost enum ActionView {
    SubmitToModel,
    Invoke(ToolView),
    Finish(OutcomeView),
}

impl View for Action {
    type V = ActionView;

    open spec fn view(&self) -> ActionView {
        match self {
            Action::SubmitToModel => ActionView::SubmitToModel,
            Action::Invoke(tool) => ActionView::Invoke(tool@),
            Action::Finish(outcome) => ActionView::Finish(outcome@),
        }
    }
}

/// Where the loop stands.
pub ghost enum StageView {
    /// The conversation is with the model.
    AwaitingModel,
    /// Call number `next` of `request` is with its tool; the calls before
    /// it are answered.
    ExecutingTools { request: MessageView, next: nat },
    /// The loop is over.
    Finished(OutcomeView),
}

/// The mathematical content of an [`Orchestrator`].
pub ghost struct LoopView {
    pub catalog: Seq<ToolView>,
    pub conversation: Seq<MessageView>,
    pub stage: StageView,
}

/// Whether `index` is the place of the first tool of `catalog` called
/// `name`.
pub open spec fn is_first_named(catalog: Seq<ToolView>, name: Seq<char>, index: int) -> bool {
    &&& 0 <= index < catalog.len()
    &&& catalog[index].name == name
    &&& forall|j: int| 0 <= j < index ==> (#[trigger] catalog[j]).name != name
}

/// The place of the first tool of `catalog` called `name`, if there is one.
pub open spec fn first_named(catalog: Seq<ToolView>, name: Seq<char>) -> Option<int> {
    if exists|i: int| is_first_named(catalog, name, i) {
        Some(choose|i: int| is_first_named(catalog, name, i))
    } else {
        None
    }
}

/// What the dispatch of `call` against `catalog` comes to: the copy of the
/// first tool of that name with the decoded arguments, ready to be invoked;
/// or the failure, where the catalog holds no tool of that name or, failing
/// that, where the arguments are not the text of a JSON object.
pub open spec fn dispatch(catalog: Seq<ToolView>, call: ToolCallView) -> Result<
    ToolView,
    LoopErrorView,
> {
    match first_named(catalog, call.tool_name) {
        None => Err(
            LoopErrorView::ToolNotFound { call_id: call.call_id, tool_name: call.tool_name },
        ),
        Some(index) => match decoded_object(call.raw_arguments) {
            None => Err(
                LoopErrorView::ArgumentDecode {
                    call_id: call.call_id,
                    tool_name: call.tool_name,
                },
            ),
            Some(entries) => Ok(ToolView { arguments: Some(entries), ..catalog[index] }),
        },
    }
}

/// The loop ended with `outcome`.
pub open spec fn finished(state: LoopView, outcome: OutcomeView) -> (LoopView, ActionView) {
    (LoopView { stage: StageView::Finished(outcome), ..state }, ActionView::Finish(outcome))
}

/// The loop takes up call number `next` of `request`: the tool is to be
/// invoked, or the loop ends with the failure of the dispatch.
pub open spec fn take_up(state: LoopView, request: MessageView, next: nat) -> (
    LoopView,
    ActionView,
) {
    match dispatch(state.catalog, request.tool_calls[next as int]) {
        Ok(tool) => (
            LoopView { stage: StageView::ExecutingTools { request, next }, ..state },
            ActionView::Invoke(tool),
        ),
        Err(error) => finished(state, OutcomeView::Failed(error)),
    }
}

/// The conversation once the call number `next` of `request` is answered
/// with `text`: the request itself is recorded just before the answer to
/// its first call, and every answer carries the token of its call.
pub open spec fn answered(
    conversation: Seq<MessageView>,
    request: MessageView,
    next: nat,
    text: Seq<char>,
) -> Seq<MessageView> {
    let recorded = if next == 0 {
        conversation.push(request)
    } else {
        conversation
    };
    recorded.push(tool_result(text, request.tool_calls[next as int].call_id))
}

/// The transition of the loop: the state after `event` and the action that
/// answers it.
///
/// While the conversation is with the model: a turn without choices ends
/// the loop with nothing to do; a turn whose primary choice asks for no
/// call ends it with that choice as the answer; any other turn has its
/// first call taken up; a failed submission ends the loop. While a call is
/// with its tool: a result is appended under the token of the call, and
/// the next call is taken up or, after the last, the conversation goes back
/// to the model; a failed session ends the loop. An event that the state
/// does not wait for changes nothing and has the awaited action repeated.
pub open spec fn loop_step(state: LoopView, event: EventView) -> (LoopView, ActionView) {
    match state.stage {
        StageView::AwaitingModel => match event {
            EventView::ModelReplied(turn) => {
                if turn.len() == 0 {
                    finished(state, OutcomeView::EmptyChoices)
                } else if turn[0].tool_calls.len() == 0 {
                    finished(state, OutcomeView::Answer(assistant_message(turn[0])))
                } else {
                    take_up(state, assistant_message(turn[0]), 0)
                }
            },
            EventView::ModelFailed => finished(
                state,
                OutcomeView::Failed(LoopErrorView::Collaborator),
            ),
            EventView::ToolFinished(_) => (state, ActionView::SubmitToModel),
        },
        StageView::ExecutingTools { request, next } => match event {
            EventView::ToolFinished(Ok(text)) => {
                let recorded = LoopView {
                    conversation: answered(state.conversation, request, next, text),
                    ..state
                };
                if next + 1 < request.tool_calls.len() {
                    take_up(recorded, request, next + 1)
                } else {
                    (
                        LoopView { stage: StageView::AwaitingModel, ..recorded },
                        ActionView::SubmitToModel,
                    )
                }
            },
            EventView::ToolFinished(Err(error)) => finished(
                state,
                OutcomeView::Failed(
                    LoopErrorView::Session {
                        call_id: request.tool_calls[next as int].call_id,
                        tool_name: request.tool_calls[next as int].tool_name,
                        error,
                    },
                ),
            ),
            _ => take_up(state, request, next),
        },
        StageView::Finished(outcome) => (state, ActionView::Finish(outcome)),
    }
}

/// The first tool of `catalog` called `name`.
pub fn find_tool(catalog: &Vec<Tool>, name: &String) -> (found: Option<usize>)
    ensures
        match found {
            Some(index) => first_named(tool_views(catalog@), name@) == Some(index as int),
            None => first_named(tool_views(catalog@), name@) is None,
        },
        found is None <==> forall|i: int|
            0 <= i < catalog.len() ==> (#[trigger] catalog@[i])@.name != name@,
{
    let ghost views = tool_views(catalog@);
    let mut i: usize = 0;
    while i < catalog.len()
        invariant
            i <= catalog.len(),
            views == tool_views(catalog@),
            forall|j: int| 0 <= j < i ==> (#[trigger] views[j]).name != name@,
        decreases catalog.len() - i,
    {
        if *catalog[i].name() == *name {
            proof {
                assert(views[i as int] == catalog@[i as int]@);
                assert(is_first_named(views, name@, i as int));
                let chosen = choose|k: int| is_first_named(views, name@, k);
                assert(is_first_named(views, name@, chosen));
                if chosen < i {
                    assert(views[chosen].name != name@);
                }
                if i < chosen {
                    assert(views[i as int].name != name@);
                }
            }
            return Some(i);
        }
        assert(views[i as int] == catalog@[i as int]@);
        i += 1;
    }
    proof {
        assert forall|k: int| !is_first_named(views, name@, k) by {
            if 0 <= k < views.len() {
                assert(views[k].name != name@);
            }
        }
        assert forall|k: int| 0 <= k < catalog.len() implies (#[trigger] catalog@[k])@.name
            != name@ by {
            assert(views[k] == catalog@[k]@);
        }
    }
    None
}

/// The copy of `tool` that `call` is invoked on, given what decoding the
/// arguments of the call gave.
pub fn bind_arguments(
    tool: &Tool,
    call: &ToolCallRequest,
    decoded: Result<serde_json::Map<String, Value>, ArgumentDecodeError>,
) -> (bound: Result<Tool, LoopError>)
    ensures
        match decoded {
            Ok(object) => bound is Ok && bound->Ok_0@ == (ToolView {
                arguments: Some(argument_entries(object)),
                ..tool@
            }),
            Err(_) => bound is Err && bound->Err_0@ == (LoopErrorView::ArgumentDecode {
                call_id: call@.call_id,
                tool_name: call@.tool_name,
            }),
        },
{
    match decoded {
        Ok(object) => Ok(tool.prepared(object)),
        Err(_) => Err(
            LoopError::ArgumentDecode {
                call_id: call.call_id.clone(),
                tool_name: call.tool_name.clone(),
            },
        ),
    }
}

/// Dispatches `call` against `catalog`: resolves the tool by name, decodes
/// the arguments, and hands back the copy of the tool to invoke. No
/// transport is touched.
pub fn dispatch_call(catalog: &Vec<Tool>, call: &ToolCallRequest) -> (prepared: Result<
    Tool,
    LoopError,
>)
    ensures
        match prepared {
            Ok(tool) => dispatch(tool_views(catalog@), call@) == Ok::<ToolView, LoopErrorView>(
                tool@,
            ),
            Err(error) => dispatch(tool_views(catalog@), call@) == Err::<
                ToolView,
                LoopErrorView,
            >(error@),
        },
        (forall|i: int| 0 <= i < catalog.len() ==> (#[trigger] catalog@[i])@.name
            != call@.tool_name) ==> prepared is Err && prepared->Err_0@ == (
        LoopErrorView::ToolNotFound { call_id: call@.call_id, tool_name: call@.tool_name }),
{
    match find_tool(catalog, &call.tool_name) {
        None => Err(
            LoopError::ToolNotFound {
                call_id: call.call_id.clone(),
                tool_name: call.tool_name.clone(),
            },
        ),
        Some(index) => {
            assert(tool_views(catalog@)[index as int] == catalog@[index as int]@);
            let decoded = decode_arguments(call.raw_arguments.as_str());
            bind_arguments(&catalog[index], call, decoded)
        },
    }
}

#[derive(Debug)]
enum Stage {
    AwaitingModel,
    ExecutingTools { request: Message, next: usize },
    Finished(Outcome),
}

impl View for Stage {
    type V = StageView;

    closed spec fn view(&self) -> StageView {
        match self {
            Stage::AwaitingModel => StageView::AwaitingModel,
            Stage::ExecutingTools { request, next } => StageView::ExecutingTools {
                request: request@,
                next: *next as nat,
            },
            Stage::Finished(outcome) => StageView::Finished(outcome@),
        }
    }
}

/// The three stages of the loop, without what they hold.
#[derive(Debug, Clone, Copy, PartialEq, Eq, Structural)]
pub enum Phase {
    AwaitingModel,
    ExecutingTools,
    Finished,
}

/// The orchestration loop over one catalog of tools and one conversation.
#[derive(Debug)]
pub struct Orchestrator {
    catalog: Vec<Tool>,
    conversation: Vec<Message>,
    stage: Stage,
}

impl View for Orchestrator {
    type V = LoopView;

    closed spec fn view(&self) -> LoopView {
        LoopView {
            catalog: tool_views(self.catalog@),
            conversation: message_views(self.conversation@),
            stage: self.stage@,
        }
    }
}

impl Orchestrator {
    #[verifier::type_invariant]
    spec fn call_in_flight_exists(self) -> bool {
        match self.stage {
            Stage::ExecutingTools { request, next } => next < request.tool_calls.len(),
            _ => true,
        }
    }

    /// A loop over `catalog` that starts from `conversation`. The first
    /// action is to submit the conversation to the model.
    pub fn new(catalog: Vec<Tool>, conversation: Vec<Message>) -> (started: (Orchestrator, Action))
        ensures
            started.0@ == (LoopView {
                catalog: tool_views(catalog@),
                conversation: message_views(conversation@),
                stage: StageView::AwaitingModel,
            }),
            started.1@ == ActionView::SubmitToModel,
    {
        (Orchestrator { catalog, conversation, stage: Stage::AwaitingModel }, Action::SubmitToModel)
    }

    /// The tools that the model may call.
    pub fn catalog(&self) -> (catalog: &Vec<Tool>)
        ensures
            tool_views(catalog@) == self@.catalog,
    {
        &self.catalog
    }

    /// The conversation so far.
    pub fn conversation(&self) -> (conversation: &Vec<Message>)
        ensures
            message_views(conversation@) == self@.conversation,
    {
        &self.conversation
    }

    /// The stage at which the loop stands.
    pub fn phase(&self) -> (phase: Phase)
        ensures
            phase == match self@.stage {
                StageView::AwaitingModel => Phase::AwaitingModel,
                StageView::ExecutingTools { .. } => Phase::ExecutingTools,
                StageView::Finished(_) => Phase::Finished,
            },
    {
        match &self.stage {
            Stage::AwaitingModel => Phase::AwaitingModel,
            Stage::ExecutingTools { .. } => Phase::ExecutingTools,
            Stage::Finished(_) => Phase::Finished,
        }
    }

    /// How the loop ended, once it has.
    pub fn outcome(&self) -> (outcome: Option<&Outcome>)
        ensures
            match outcome {
                Some(ended) => self@.stage == StageView::Finished(ended@),
                None => !(self@.stage is Finished),
            },
    {
        match &self.stage {
            Stage::Finished(outcome) => Some(outcome),
            _ => None,
        }
    }

    /// The function declarations that state the catalog to the model, one
    /// per tool, in the order of the catalog.
    pub fn schemas(&self) -> (schemas: Vec<FunctionSchema>)
        ensures
            schemas@.map_values(|s: FunctionSchema| s@) == self@.catalog.map_values(
                |t: ToolView| schema_of(t),
            ),
    {
        catalog_schemas(&self.catalog)
    }

    fn finish(catalog: Vec<Tool>, conversation: Vec<Message>, outcome: Outcome) -> (next: (
        Orchestrator,
        Action,
    ))
        ensures
            (next.0@, next.1@) == finished(
                LoopView {
                    catalog: tool_views(catalog@),
                    conversation: message_views(conversation@),
                    stage: StageView::AwaitingModel,
                },
                outcome@,
            ),
    {
        let copy = outcome.clone();
        (
            Orchestrator { catalog, conversation, stage: Stage::Finished(outcome) },
            Action::Finish(copy),
        )
    }

    fn take_up(
        catalog: Vec<Tool>,
        conversation: Vec<Message>,
        request: Message,
        next: usize,
    ) -> (taken: (Orchestrator, Action))
        requires
            next < request.tool_calls.len(),
        ensures
            (taken.0@, taken.1@) == take_up(
                LoopView {
                    catalog: tool_views(catalog@),
                    conversation: message_views(conversation@),
                    stage: StageView::AwaitingModel,
                },
                request@,
                next as nat,
            ),
    {
        assert(request@.tool_calls[next as int] == request.tool_calls@[next as int]@);
        match dispatch_call(&catalog, &request.tool_calls[next]) {
            Ok(tool) => (
                Orchestrator {
                    catalog,
                    conversation,
                    stage: Stage::ExecutingTools { request, next },
                },
                Action::Invoke(tool),
            ),
            Err(error) => Orchestrator::finish(catalog, conversation, Outcome::Failed(error)),
        }
    }

    /// Takes `event` and answers with the loop after it and the next
    /// action, as [`loop_step`] lays down.
    pub fn step(self, event: Event) -> (next: (Orchestrator, Action))
        ensures
            (next.0@, next.1@) == loop_step(self@, event@),
    {
        proof {
            use_type_invariant(&self);
        }
        let Orchestrator { catalog, conversation, stage } = self;
        match stage {
            Stage::AwaitingModel => match event {
                Event::ModelReplied(turn) => {
                    let mut choices = turn.choices;
                    if choices.len() == 0 {
                        Orchestrator::finish(catalog, conversation, Outcome::EmptyChoices)
                    } else {
                        let ghost primary = choices@[0]@;
                        assert(turn@[0] == primary);
                        let choice = choices.swap_remove(0);
                        let request = choice.into_message();
                        if request.tool_calls.len() == 0 {
                            Orchestrator::finish(catalog, conversation, Outcome::Answer(request))
                        } else {
                            Orchestrator::take_up(catalog, conversation, request, 0)
                        }
                    }
                },
                Event::ModelFailed => Orchestrator::finish(
                    catalog,
                    conversation,
                    Outcome::Failed(LoopError::Collaborator),
                ),
                Event::ToolFinished(_) => (
                    Orchestrator { catalog, conversation, stage: Stage::AwaitingModel },
                    Action::SubmitToModel,
                ),
            },
            Stage::ExecutingTools { request, next } => match event {
                Event::ToolFinished(Ok(text)) => {
                    let mut conversation = conversation;
                    let ghost before = message_views(conversation@);
                    assert(request@.tool_calls[next as int] == request.tool_calls@[next as int]@);
                    if next == 0 {
                        conversation.push(request.clone());
                    }
                    conversation.push(
                        Message::from_tool_call_response(
                            text.as_str(),
                            request.tool_calls[next].call_id.as_str(),
                        ),
                    );
                    assert(message_views(conversation@) =~= answered(
                        before,
                        request@,
                        next as nat,
                        text@,
                    ));
                    if next + 1 < request.tool_calls.len() {
                        Orchestrator::take_up(catalog, conversation, request, next + 1)
                    } else {
                        (
                            Orchestrator { catalog, conversation, stage: Stage::AwaitingModel },
                            Action::SubmitToModel,
                        )
                    }
                },
                Event::ToolFinished(Err(error)) => {
                    assert(request@.tool_calls[next as int] == request.tool_calls@[next as int]@);
                    let failure = LoopError::Session {
                        call_id: request.tool_calls[next].call_id.clone(),
                        tool_name: request.tool_calls[next].tool_name.clone(),
                        error,
                    };
                    Orchestrator::finish(catalog, conversation, Outcome::Failed(failure))
                },
                _ => Orchestrator::take_up(catalog, conversation, request, next),
            },
            Stage::Finished(outcome) => {
                let copy = outcome.clone();
                (
                    Orchestrator { catalog, conversation, stage: Stage::Finished(outcome) },
                    Action::Finish(copy),
                )
            },
        }
    }
}

/// The function declarations that state `catalog` to the model, one per
/// tool, in the order of the catalog.
pub fn catalog_schemas(catalog: &Vec<Tool>) -> (schemas: Vec<FunctionSchema>)
    ensures
        schemas@.map_values(|s: FunctionSchema| s@) == tool_views(catalog@).map_values(
            |t: ToolView| schema_of(t),
        ),
{
    let mut schemas: Vec<FunctionSchema> = Vec::new();
    let mut i: usize = 0;
    while i < catalog.len()
        invariant
            i <= catalog.len(),
            schemas.len() == i,
            forall|k: int| 0 <= k < i ==> schemas@[k]@ == schema_of(catalog@[k]@),
        decreases catalog.len() - i,
    {
        schemas.push(catalog[i].to_schema());
        i += 1;
    }
    assert(schemas@.map_values(|s: FunctionSchema| s@) =~= tool_views(catalog@).map_values(
        |t: ToolView| schema_of(t),
    ));
    schemas
}

} // verus!
