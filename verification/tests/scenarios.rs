use mcp_agent::arguments::decode_arguments;
use mcp_agent::calculator::Calculator;
use mcp_agent::conversation::{Choice, Message, ModelTurn, Role, ToolCallRequest};
use mcp_agent::orchestration::{Action, Event, Orchestrator, Outcome};
use mcp_agent::schema::ParameterSetting;
use mcp_agent::session::{
    ContentBlock, Session, SessionAction, SessionError, SessionEvent, ToolResponse,
};
use mcp_agent::tool::Tool;
use serde_json::Value;
use std::path::PathBuf;

fn operand(tool: &Tool, name: &str) -> i32 {
    let value = tool.arguments().and_then(|arguments| arguments.get(name)).and_then(Value::as_i64);
    value.unwrap() as i32
}

/// Plays the part of the tool's process: every session is opened afresh,
/// served by the calculator, and taken down.
fn start_io_client(
    tool: Tool,
    spawned: &mut usize,
    terminated: &mut usize,
) -> Result<String, SessionError> {
    assert!(tool.io_path().is_some(), "Tool must have an io_path set");
    let calculator = Calculator::new();
    let (mut session, mut action) = Session::open(tool);
    loop {
        let event = match action {
            SessionAction::Connect => {
                *spawned += 1;
                SessionEvent::Connected
            }
            SessionAction::Handshake => SessionEvent::HandshakeDone,
            SessionAction::ListTools => SessionEvent::ToolsListed,
            SessionAction::Invoke => {
                let tool = session.tool();
                let answer = calculator.call(tool.name(), operand(tool, "a"), operand(tool, "b"));
                match answer {
                    Some(text) => {
                        let content = vec![ContentBlock::Text(text)];
                        SessionEvent::Responded(ToolResponse { content })
                    }
                    None => SessionEvent::CallFailed,
                }
            }
            SessionAction::Cancel => {
                *terminated += 1;
                SessionEvent::Cancelled
            }
            SessionAction::Finish(result) => return result,
        };
        let (next, answer) = session.step(event);
        session = next;
        action = answer;
    }
}

fn add_tool(description: &str) -> Tool {
    Tool::with_io_transport(
        "add".into(),
        description.into(),
        vec![
            ParameterSetting::new("a", "number", "First operand", None),
            ParameterSetting::new("b", "number", "Second operand", None),
        ],
        PathBuf::from("."),
    )
    .unwrap()
}

#[test]
fn test_start_io_client() {
    let tool = add_tool("A simple calculator tool that provides 'add' functionality.");
    let mut arguments = serde_json::Map::new();
    arguments.insert("a".to_string(), Value::Number(5.into()));
    arguments.insert("b".to_string(), Value::Number(3.into()));
    let tool = tool.prepared(arguments);

    let (mut spawned, mut terminated) = (0, 0);
    let result = start_io_client(tool, &mut spawned, &mut terminated);

    assert!(result.is_ok(), "Failed to execute IO client: {:?}", result);
    assert_eq!(result.unwrap(), "8");
    assert_eq!((spawned, terminated), (1, 1));
}

#[test]
fn test_call_with_io_tools_calculator() {
    let messages = vec![
        Message::from_string(
            Role::System,
            "You are a helpful calculator assistant. Available tools: [add]",
        ),
        Message::from_string(Role::User, "Calculate 25 + 17 using the add tool."),
    ];
    let tools = vec![add_tool("A simple calculator tool")];
    let mut script = vec![
        ModelTurn {
            choices: vec![Choice::from_tool_calls(vec![ToolCallRequest::new(
                "c1",
                "add",
                "{\"a\":25,\"b\":17}",
            )])],
        },
        ModelTurn { choices: vec![Choice::from_text("25 + 17 = 42")] },
    ]
    .into_iter();

    let (mut orchestrator, mut action) = Orchestrator::new(tools, messages);
    let (mut spawned, mut terminated) = (0, 0);
    let mut submissions = 0;
    let response = loop {
        let event = match action {
            Action::SubmitToModel => {
                submissions += 1;
                Event::ModelReplied(script.next().unwrap())
            }
            Action::Invoke(tool) => {
                Event::ToolFinished(start_io_client(tool, &mut spawned, &mut terminated))
            }
            Action::Finish(outcome) => break outcome,
        };
        let (next, answer) = orchestrator.step(event);
        orchestrator = next;
        action = answer;
    };

    assert!(
        matches!(response, Outcome::Answer(_)),
        "Expected successful response, got: {:?}",
        response
    );
    assert_eq!(response, Outcome::Answer(Choice::from_text("25 + 17 = 42").into_message()));
    assert_eq!(submissions, 2);
    assert_eq!((spawned, terminated), (1, 1));

    let conversation = orchestrator.conversation();
    assert_eq!(conversation.len(), 4);
    assert_eq!(conversation[2].role, Role::Assistant);
    assert_eq!(
        conversation[2].tool_calls,
        vec![ToolCallRequest::new("c1", "add", "{\"a\":25,\"b\":17}")]
    );
    assert_eq!(conversation[3], Message::from_tool_call_response("42", "c1"));
}

#[test]
fn two_invocations_of_one_tool_use_two_sessions() {
    let tool = add_tool("A simple calculator tool");
    let (mut spawned, mut terminated) = (0, 0);
    let first = tool.prepared(decode_arguments("{\"a\": 1, \"b\": 2}").unwrap());
    assert_eq!(start_io_client(first, &mut spawned, &mut terminated), Ok("3".to_string()));
    assert_eq!((spawned, terminated), (1, 1));
    let second = tool.prepared(decode_arguments("{\"a\": 10, \"b\": 20}").unwrap());
    assert_eq!(start_io_client(second, &mut spawned, &mut terminated), Ok("30".to_string()));
    assert_eq!((spawned, terminated), (2, 2));
}
