use mcp_agent::conversation::{
    is_correlated, Choice, Message, ModelTurn, Role, ToolCallRequest,
};
use mcp_agent::orchestration::{
    bind_arguments, catalog_schemas, dispatch_call, find_tool, Action, Event, LoopError,
    Orchestrator, Outcome, Phase,
};
use mcp_agent::arguments::{decode_arguments, ArgumentDecodeError};
use mcp_agent::schema::ParameterSetting;
use mcp_agent::session::{InvocationError, SessionError};
use mcp_agent::tool::Tool;
use serde_json::Value;
use url::Url;

fn tool(name: &str, description: &str) -> Tool {
    Tool::with_sse_transport(
        name.to_string(),
        description.to_string(),
        vec![
            ParameterSetting::new("a", "number", "First operand", None),
            ParameterSetting::new("b", "number", "Second operand", None),
        ],
        Url::parse("http://127.0.0.1:8000/sse").unwrap(),
    )
}

fn catalog() -> Vec<Tool> {
    vec![tool("add", "Adds two numbers"), tool("sub", "Subtracts two numbers")]
}

fn history() -> Vec<Message> {
    vec![
        Message::from_string(Role::System, "You are a helpful calculator assistant."),
        Message::from_string(Role::User, "Calculate 25 + 17 and 9 - 4."),
    ]
}

fn asking(calls: Vec<ToolCallRequest>) -> Event {
    Event::ModelReplied(ModelTurn { choices: vec![Choice::from_tool_calls(calls)] })
}

fn saying(text: &str) -> Event {
    Event::ModelReplied(ModelTurn { choices: vec![Choice::from_text(text)] })
}

fn answer(text: &str) -> Event {
    Event::ToolFinished(Ok(text.to_string()))
}

fn started() -> Orchestrator {
    let (orchestrator, action) = Orchestrator::new(catalog(), history());
    assert_eq!(action, Action::SubmitToModel);
    orchestrator
}

fn invoked(action: Action) -> Tool {
    match action {
        Action::Invoke(tool) => tool,
        other => panic!("expected an invocation, got {:?}", other),
    }
}

fn number(tool: &Tool, name: &str) -> Option<i64> {
    tool.arguments().and_then(|arguments| arguments.get(name)).and_then(Value::as_i64)
}

#[test]
fn find_tool_gives_the_first_of_that_name() {
    let tools = vec![tool("add", "first"), tool("sub", "second"), tool("add", "third")];
    assert_eq!(find_tool(&tools, &"add".to_string()), Some(0));
    assert_eq!(find_tool(&tools, &"sub".to_string()), Some(1));
    assert_eq!(find_tool(&tools, &"mul".to_string()), None);
    assert_eq!(find_tool(&vec![], &"add".to_string()), None);
}

#[test]
fn bind_arguments_follows_the_decoding() {
    let call = ToolCallRequest::new("c1", "add", "{\"a\": 1}");
    let decoded = decode_arguments("{\"a\": 1}");
    let bound = bind_arguments(&tool("add", "Adds"), &call, decoded).unwrap();
    assert_eq!(number(&bound, "a"), Some(1));
    assert_eq!(bound.name(), "add");
    let refused = bind_arguments(&tool("add", "Adds"), &call, Err(ArgumentDecodeError));
    assert_eq!(
        refused,
        Err(LoopError::ArgumentDecode { call_id: "c1".to_string(), tool_name: "add".to_string() })
    );
}

#[test]
fn dispatch_prepares_the_named_tool_with_the_decoded_arguments() {
    let call = ToolCallRequest::new("c1", "sub", "{\"a\": 9, \"b\": 4}");
    let prepared = dispatch_call(&catalog(), &call).unwrap();
    assert_eq!(prepared.name(), "sub");
    assert_eq!(prepared.description(), "Subtracts two numbers");
    assert_eq!(prepared.transport(), catalog()[1].transport());
    assert_eq!(number(&prepared, "a"), Some(9));
    assert_eq!(number(&prepared, "b"), Some(4));
}

#[test]
fn dispatch_of_an_unknown_tool_is_refused() {
    let call = ToolCallRequest::new("c7", "mul", "{\"a\": 9, \"b\": 4}");
    assert_eq!(
        dispatch_call(&catalog(), &call),
        Err(LoopError::ToolNotFound { call_id: "c7".to_string(), tool_name: "mul".to_string() })
    );
}

#[test]
fn dispatch_reports_the_unknown_tool_before_the_broken_arguments() {
    let call = ToolCallRequest::new("c7", "mul", "{");
    assert_eq!(
        dispatch_call(&catalog(), &call),
        Err(LoopError::ToolNotFound { call_id: "c7".to_string(), tool_name: "mul".to_string() })
    );
}

#[test]
fn dispatch_of_broken_arguments_is_refused() {
    let call = ToolCallRequest::new("c8", "add", "{\"a\": 9, ");
    assert_eq!(
        dispatch_call(&catalog(), &call),
        Err(LoopError::ArgumentDecode { call_id: "c8".to_string(), tool_name: "add".to_string() })
    );
}

#[test]
fn catalog_schemas_follow_the_catalog() {
    let schemas = catalog_schemas(&catalog());
    assert_eq!(schemas.len(), 2);
    assert_eq!(schemas[0], catalog()[0].to_schema());
    assert_eq!(schemas[1], catalog()[1].to_schema());
    assert_eq!(started().schemas(), schemas);
    assert!(catalog_schemas(&vec![]).is_empty());
}

#[test]
fn loop_starts_with_the_model() {
    let orchestrator = started();
    assert_eq!(orchestrator.phase(), Phase::AwaitingModel);
    assert_eq!(orchestrator.conversation(), &history());
    assert_eq!(orchestrator.catalog(), &catalog());
    assert_eq!(orchestrator.outcome(), None);
}

#[test]
fn plain_answer_ends_the_loop() {
    let (orchestrator, action) = started().step(saying("Nothing to compute."));
    let expected = Outcome::Answer(Choice::from_text("Nothing to compute.").into_message());
    assert_eq!(orchestrator.outcome(), Some(&expected));
    assert_eq!(action, Action::Finish(expected));
    assert_eq!(orchestrator.phase(), Phase::Finished);
    assert_eq!(orchestrator.conversation(), &history());
}

#[test]
fn only_the_primary_choice_counts() {
    let turn = ModelTurn {
        choices: vec![
            Choice::from_text("First."),
            Choice::from_tool_calls(vec![ToolCallRequest::new("c1", "add", "{}")]),
        ],
    };
    let (_, action) = started().step(Event::ModelReplied(turn));
    assert_eq!(action, Action::Finish(Outcome::Answer(Choice::from_text("First.").into_message())));
}

#[test]
fn turn_without_choices_ends_the_loop_with_nothing_to_do() {
    let (orchestrator, action) = started().step(Event::ModelReplied(ModelTurn { choices: vec![] }));
    assert_eq!(action, Action::Finish(Outcome::EmptyChoices));
    assert_eq!(orchestrator.outcome(), Some(&Outcome::EmptyChoices));
    assert_eq!(orchestrator.conversation(), &history());
}

#[test]
fn failed_submission_ends_the_loop() {
    let (orchestrator, action) = started().step(Event::ModelFailed);
    assert_eq!(action, Action::Finish(Outcome::Failed(LoopError::Collaborator)));
    assert_eq!(orchestrator.phase(), Phase::Finished);
}

#[test]
fn unknown_tool_ends_the_round_before_any_invocation() {
    let (orchestrator, action) =
        started().step(asking(vec![ToolCallRequest::new("c1", "mul", "{\"a\": 2, \"b\": 3}")]));
    assert_eq!(
        action,
        Action::Finish(Outcome::Failed(LoopError::ToolNotFound {
            call_id: "c1".to_string(),
            tool_name: "mul".to_string(),
        }))
    );
    assert_eq!(orchestrator.phase(), Phase::Finished);
    assert_eq!(orchestrator.conversation(), &history());
}

#[test]
fn broken_arguments_end_the_round_before_any_invocation() {
    let (orchestrator, action) =
        started().step(asking(vec![ToolCallRequest::new("c1", "add", "a=2, b=3")]));
    assert_eq!(
        action,
        Action::Finish(Outcome::Failed(LoopError::ArgumentDecode {
            call_id: "c1".to_string(),
            tool_name: "add".to_string(),
        }))
    );
    assert_eq!(orchestrator.conversation(), &history());
}

#[test]
fn failed_session_ends_the_loop_and_names_the_call() {
    for error in [
        SessionError::Connect,
        SessionError::Protocol,
        SessionError::Invocation(InvocationError::CallFailed),
        SessionError::Invocation(InvocationError::EmptyResult),
        SessionError::Invocation(InvocationError::UnsupportedContentType),
    ] {
        let (orchestrator, _) =
            started().step(asking(vec![ToolCallRequest::new("c1", "add", "{\"a\": 2, \"b\": 3}")]));
        assert_eq!(orchestrator.phase(), Phase::ExecutingTools);
        let (orchestrator, action) = orchestrator.step(Event::ToolFinished(Err(error)));
        assert_eq!(
            action,
            Action::Finish(Outcome::Failed(LoopError::Session {
                call_id: "c1".to_string(),
                tool_name: "add".to_string(),
                error,
            }))
        );
        assert_eq!(orchestrator.conversation(), &history());
    }
}

#[test]
fn calls_of_a_turn_are_dispatched_in_order_and_answered_under_their_tokens() {
    let calls = || {
        vec![
            ToolCallRequest::new("c1", "add", "{\"a\": 25, \"b\": 17}"),
            ToolCallRequest::new("c2", "sub", "{\"a\": 9, \"b\": 4}"),
            ToolCallRequest::new("c3", "add", "{\"a\": 1, \"b\": 1}"),
        ]
    };
    let (orchestrator, action) = started().step(asking(calls()));
    let first = invoked(action);
    assert_eq!(first.name(), "add");
    assert_eq!(number(&first, "a"), Some(25));
    assert_eq!(orchestrator.conversation(), &history());

    let (orchestrator, action) = orchestrator.step(answer("42"));
    let second = invoked(action);
    assert_eq!(second.name(), "sub");
    assert_eq!(number(&second, "a"), Some(9));
    assert_eq!(orchestrator.conversation().len(), history().len() + 2);

    let (orchestrator, action) = orchestrator.step(answer("5"));
    let third = invoked(action);
    assert_eq!(third.name(), "add");
    assert_eq!(number(&third, "b"), Some(1));

    let (orchestrator, action) = orchestrator.step(answer("2"));
    assert_eq!(action, Action::SubmitToModel);
    assert_eq!(orchestrator.phase(), Phase::AwaitingModel);

    let mut expected = history();
    expected.push(Choice::from_tool_calls(calls()).into_message());
    expected.push(Message::from_tool_call_response("42", "c1"));
    expected.push(Message::from_tool_call_response("5", "c2"));
    expected.push(Message::from_tool_call_response("2", "c3"));
    assert_eq!(orchestrator.conversation(), &expected);
}

#[test]
fn failure_in_the_middle_of_a_turn_keeps_what_was_answered() {
    let calls = || {
        vec![
            ToolCallRequest::new("c1", "add", "{\"a\": 25, \"b\": 17}"),
            ToolCallRequest::new("c2", "mul", "{\"a\": 9, \"b\": 4}"),
        ]
    };
    let (orchestrator, _) = started().step(asking(calls()));
    let (orchestrator, action) = orchestrator.step(answer("42"));
    assert_eq!(
        action,
        Action::Finish(Outcome::Failed(LoopError::ToolNotFound {
            call_id: "c2".to_string(),
            tool_name: "mul".to_string(),
        }))
    );
    let mut expected = history();
    expected.push(Choice::from_tool_calls(calls()).into_message());
    expected.push(Message::from_tool_call_response("42", "c1"));
    assert_eq!(orchestrator.conversation(), &expected);
    assert!(is_correlated(orchestrator.conversation()));
}

#[test]
fn loop_ends_one_turn_after_the_turns_that_ask_for_calls() {
    let mut orchestrator = started();
    let mut submissions = 1;
    for round in 0..3 {
        let token = format!("c{}", round);
        let call = ToolCallRequest::new(&token, "add", "{\"a\": 1, \"b\": 2}");
        let (next, action) = orchestrator.step(asking(vec![call]));
        assert_eq!(invoked(action).name(), "add");
        let (next, action) = next.step(answer("3"));
        assert_eq!(action, Action::SubmitToModel);
        assert_eq!(next.phase(), Phase::AwaitingModel);
        submissions += 1;
        orchestrator = next;
    }
    let (orchestrator, action) = orchestrator.step(saying("All done: 3."));
    let expected = Outcome::Answer(Choice::from_text("All done: 3.").into_message());
    assert_eq!(action, Action::Finish(expected));
    assert_eq!(orchestrator.phase(), Phase::Finished);
    assert_eq!(submissions, 3 + 1);
    assert_eq!(orchestrator.conversation().len(), history().len() + 3 * 2);
}

#[test]
fn every_tool_message_answers_the_call_at_its_place() {
    let mut orchestrator = started();
    for round in 0..4 {
        let calls: Vec<ToolCallRequest> = (0..=round)
            .map(|i| format!("r{}c{}", round, i))
            .map(|token| ToolCallRequest::new(&token, "add", "{\"a\": 1, \"b\": 2}"))
            .collect();
        let (mut next, _) = orchestrator.step(asking(calls));
        for i in 0..=round {
            let (after, _) = next.step(answer(&format!("{}", i)));
            next = after;
        }
        orchestrator = next;
    }
    let conversation = orchestrator.conversation();
    assert!(is_correlated(conversation));
    let mut request_at = 0;
    for (at, message) in conversation.iter().enumerate() {
        if message.role == Role::Assistant {
            request_at = at;
        }
        if message.role == Role::Tool {
            let call = &conversation[request_at].tool_calls[at - request_at - 1];
            assert_eq!(message.tool_call_id.as_ref(), Some(&call.call_id));
            assert_eq!(message.content, Some(format!("{}", at - request_at - 1)));
        }
    }
    assert_eq!(conversation.len(), history().len() + 4 + (1 + 2 + 3 + 4));
}

#[test]
fn event_out_of_turn_changes_nothing() {
    let (orchestrator, action) = started().step(answer("stray"));
    assert_eq!(action, Action::SubmitToModel);
    assert_eq!(orchestrator.phase(), Phase::AwaitingModel);
    assert_eq!(orchestrator.conversation(), &history());

    let (orchestrator, first) =
        orchestrator.step(asking(vec![ToolCallRequest::new("c1", "add", "{\"a\": 2, \"b\": 3}")]));
    let (orchestrator, again) = orchestrator.step(saying("stray"));
    assert_eq!(again, first);
    let (orchestrator, again) = orchestrator.step(Event::ModelFailed);
    assert_eq!(again, first);
    assert_eq!(orchestrator.phase(), Phase::ExecutingTools);
    assert_eq!(orchestrator.conversation(), &history());
}

#[test]
fn finished_loop_repeats_its_outcome() {
    let (orchestrator, first) = started().step(saying("Done."));
    let (orchestrator, again) = orchestrator.step(answer("late"));
    assert_eq!(again, first);
    let (orchestrator, again) =
        orchestrator.step(asking(vec![ToolCallRequest::new("c1", "add", "{}")]));
    assert_eq!(again, first);
    let (_, again) = orchestrator.step(Event::ModelFailed);
    assert_eq!(again, first);
}
