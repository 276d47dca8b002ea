use mcp_agent::conversation::{
    copied_calls, copied_optional_text, is_correlated, Choice, Message, Role, ToolCallRequest,
};

#[test]
fn plain_message_holds_role_and_text() {
    let message = Message::from_string(Role::User, "Calculate 25 + 17 using the add tool.");
    assert_eq!(message.role, Role::User);
    assert_eq!(message.content, Some("Calculate 25 + 17 using the add tool.".to_string()));
    assert!(message.tool_calls.is_empty());
    assert_eq!(message.tool_call_id, None);
}

#[test]
fn tool_message_carries_the_token_of_its_call() {
    let message = Message::from_tool_call_response("42", "c1");
    assert_eq!(message.role, Role::Tool);
    assert_eq!(message.content, Some("42".to_string()));
    assert_eq!(message.tool_call_id, Some("c1".to_string()));
    assert!(message.tool_calls.is_empty());
}

#[test]
fn request_holds_token_name_and_arguments() {
    let request = ToolCallRequest::new("c1", "add", "{\"a\":25,\"b\":17}");
    assert_eq!(request.call_id, "c1");
    assert_eq!(request.tool_name, "add");
    assert_eq!(request.raw_arguments, "{\"a\":25,\"b\":17}");
    assert_eq!(request.clone(), request);
}

#[test]
fn choice_becomes_an_assistant_message() {
    let calls =
        vec![ToolCallRequest::new("c1", "add", "{}"), ToolCallRequest::new("c2", "sub", "{}")];
    let message = Choice::from_tool_calls(copied_calls(&calls)).into_message();
    assert_eq!(message.role, Role::Assistant);
    assert_eq!(message.content, None);
    assert_eq!(message.tool_calls, calls);
    assert_eq!(message.tool_call_id, None);

    let message = Choice::from_text("The sum is 42.").into_message();
    assert_eq!(message.role, Role::Assistant);
    assert_eq!(message.content, Some("The sum is 42.".to_string()));
    assert!(message.tool_calls.is_empty());
}

#[test]
fn copies_are_equal() {
    let messages = vec![
        Message::from_string(Role::System, "s"),
        Choice::from_tool_calls(vec![ToolCallRequest::new("c1", "add", "{}")]).into_message(),
        Message::from_tool_call_response("42", "c1"),
    ];
    assert_eq!(messages[0].clone(), messages[0]);
    assert_eq!(messages[2].clone(), messages[2]);
    assert_eq!(messages[1].clone(), messages[1]);
    assert_eq!(copied_optional_text(&Some("x".to_string())), Some("x".to_string()));
    assert_eq!(copied_optional_text(&None), None);
}

fn asking(tokens: &[&str]) -> Message {
    let calls = tokens.iter().map(|token| ToolCallRequest::new(token, "add", "{}")).collect();
    Choice::from_tool_calls(calls).into_message()
}

fn result(token: &str) -> Message {
    Message::from_tool_call_response("42", token)
}

#[test]
fn conversation_without_tool_messages_is_correlated() {
    assert!(is_correlated(&vec![]));
    assert!(is_correlated(&vec![
        Message::from_string(Role::System, "s"),
        Message::from_string(Role::User, "u"),
        Choice::from_text("a").into_message(),
    ]));
    assert!(is_correlated(&vec![asking(&["c1", "c2"])]));
}

#[test]
fn results_in_the_order_of_their_calls_are_correlated() {
    assert!(is_correlated(&vec![asking(&["c1"]), result("c1")]));
    assert!(is_correlated(&vec![
        Message::from_string(Role::User, "u"),
        asking(&["c1", "c2", "c3"]),
        result("c1"),
        result("c2"),
        result("c3"),
        asking(&["c4"]),
        result("c4"),
        Choice::from_text("done").into_message(),
    ]));
    assert!(is_correlated(&vec![asking(&["c1", "c2"]), result("c1")]));
}

#[test]
fn result_without_a_request_is_not_correlated() {
    assert!(!is_correlated(&vec![result("c1")]));
    assert!(!is_correlated(&vec![Message::from_string(Role::User, "u"), result("c1")]));
    assert!(!is_correlated(&vec![Choice::from_text("a").into_message(), result("c1")]));
}

#[test]
fn result_under_another_token_is_not_correlated() {
    assert!(!is_correlated(&vec![asking(&["c1"]), result("c2")]));
    assert!(!is_correlated(&vec![asking(&["c1", "c2"]), result("c2"), result("c1")]));
    let mut unsigned = result("c1");
    unsigned.tool_call_id = None;
    assert!(!is_correlated(&vec![asking(&["c1"]), unsigned]));
}

#[test]
fn more_results_than_calls_are_not_correlated() {
    assert!(!is_correlated(&vec![asking(&["c1"]), result("c1"), result("c1")]));
    assert!(!is_correlated(&vec![asking(&["c1", "c2"]), result("c1"), result("c2"), result("c3")]));
}

#[test]
fn result_cut_off_from_its_request_is_not_correlated() {
    assert!(!is_correlated(&vec![
        asking(&["c1", "c2"]),
        result("c1"),
        Message::from_string(Role::User, "u"),
        result("c2"),
    ]));
}
