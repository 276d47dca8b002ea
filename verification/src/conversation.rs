//! The conversation with the model: messages, the tool calls that an
//! assistant message asks for, and the turns that the model returns.

use vstd::prelude::*;

verus! {

/// Who a message is from.
#[derive(Debug, Clone, Copy, PartialEq, Eq, Structural)]
pub enum Role {
    System,
    User,
    Assistant,
    Tool,
}

/// One tool call that the model asks for: the token that its result must
/// carry, the name of the tool, and the arguments as the model wrote them.
#[derive(Debug, PartialEq, Eq)]
pub struct ToolCallRequest {
    pub call_id: String,
    pub tool_name: String,
    pub raw_arguments: String,
}

/// The mathematical content of a [`ToolCallRequest`].
pub ghost struct ToolCallView {
    pub call_id: Seq<char>,
    pub tool_name: Seq<char>,
    pub raw_arguments: Seq<char>,
}

impl View for ToolCallRequest {
    type V = ToolCallView;

    open spec fn view(&self) -> ToolCallView {
        ToolCallView {
            call_id: self.call_id@,
            tool_name: self.tool_name@,
            raw_arguments: self.raw_arguments@,
        }
    }
}

/// The views of a sequence of tool calls, in order.
pub open spec fn call_views(calls: Seq<ToolCallRequest>) -> Seq<ToolCallView> {
    calls.map_values(|c: ToolCallRequest| c@)
}

impl ToolCallRequest {
    /// A request to call `tool_name` with the arguments written in
    /// `raw_arguments`, to be answered under `call_id`.
    pub fn new(call_id: &str, tool_name: &str, raw_arguments: &str) -> (request: Self)
        ensures
            request@ == (ToolCallView {
                call_id: call_id@,
                tool_name: tool_name@,
                raw_arguments: raw_arguments@,
            }),
    {
        ToolCallRequest {
            call_id: call_id.to_owned(),
            tool_name: tool_name.to_owned(),
            raw_arguments: raw_arguments.to_owned(),
        }
    }
}

impl Clone for ToolCallRequest {
    fn clone(&self) -> (copy: Self)
        ensures
            copy@ == self@,
    {
        ToolCallRequest {
            call_id: self.call_id.clone(),
            tool_name: self.tool_name.clone(),
            raw_arguments: self.raw_arguments.clone(),
        }
    }
}

/// A copy of each call of `calls`, in order.
pub fn copied_calls(calls: &Vec<ToolCallRequest>) -> (copy: Vec<ToolCallRequest>)
    ensures
        call_views(copy@) == call_views(calls@),
{
    let mut copy: Vec<ToolCallRequest> = Vec::new();
    let mut i: usize = 0;
    while i < calls.len()
        invariant
            i <= calls.len(),
            copy.len() == i,
            forall|k: int| 0 <= k < i ==> copy@[k]@ == calls@[k]@,
        decreases calls.len() - i,
    {
        copy.push(calls[i].clone());
        i += 1;
    }
    assert(call_views(copy@) =~= call_views(calls@));
    copy
}

/// One message of the conversation. An assistant message may ask for tool
/// calls; a tool message carries the token of the call that it answers.
#[derive(Debug, PartialEq, Eq)]
pub struct Message {
    pub role: Role,
    pub content: Option<String>,
    pub tool_calls: Vec<ToolCallRequest>,
    pub tool_call_id: Option<String>,
}

/// The mathematical content of a [`Message`].
pub ghost struct MessageView {
    pub role: Role,
    pub content: Option<Seq<char>>,
    pub tool_calls: Seq<ToolCallView>,
    pub tool_call_id: Option<Seq<char>>,
}

/// The characters of an optional string.
pub open spec fn optional_text(text: Option<String>) -> Option<Seq<char>> {
    match text {
        Some(t) => Some(t@),
        None => None,
    }
}

impl View for Message {
    type V = MessageView;

    open spec fn view(&self) -> MessageView {
        MessageView {
            role: self.role,
            content: optional_text(self.content),
            tool_calls: call_views(self.tool_calls@),
            tool_call_id: optional_text(self.tool_call_id),
        }
    }
}

/// The views of a sequence of messages, in order.
pub open spec fn message_views(messages: Seq<Message>) -> Seq<MessageView> {
    messages.map_values(|m: Message| m@)
}

/// The message that carries the result `text` of the call `call_id`.
pub open spec fn tool_result(text: Seq<char>, call_id: Seq<char>) -> MessageView {
    MessageView {
        role: Role::Tool,
        content: Some(text),
        tool_calls: Seq::empty(),
        tool_call_id: Some(call_id),
    }
}

/// A copy of an optional string.
pub fn copied_optional_text(text: &Option<String>) -> (copy: Option<String>)
    ensures
        optional_text(copy) == optional_text(*text),
{
    match text {
        Some(t) => Some(t.clone()),
        None => None,
    }
}

impl Message {
    /// A plain message from `role` with the content `text`.
    pub fn from_string(role: Role, text: &str) -> (message: Self)
        ensures
            message@ == (MessageView {
                role,
                content: Some(text@),
                tool_calls: Seq::empty(),
                tool_call_id: None,
            }),
    {
        let message = Message {
            role,
            content: Some(text.to_owned()),
            tool_calls: Vec::new(),
            tool_call_id: None,
        };
        assert(call_views(message.tool_calls@) =~= Seq::empty());
        message
    }

    /// The tool message that answers the call `tool_call_id` with
    /// `tool_call_response`.
    pub fn from_tool_call_response(tool_call_response: &str, tool_call_id: &str) -> (message:
        Self)
        ensures
            message@ == tool_result(tool_call_response@, tool_call_id@),
    {
        let message = Message {
            role: Role::Tool,
            content: Some(tool_call_response.to_owned()),
            tool_calls: Vec::new(),
            tool_call_id: Some(tool_call_id.to_owned()),
        };
        assert(call_views(message.tool_calls@) =~= Seq::empty());
        message
    }
}

impl Clone for Message {
    fn clone(&self) -> (copy: Self)
        ensures
            copy@ == self@,
    {
        Message {
            role: self.role,
            content: copied_optional_text(&self.content),
            tool_calls: copied_calls(&self.tool_calls),
            tool_call_id: copied_optional_text(&self.tool_call_id),
        }
    }
}

/// Whether `message` is the tool message that answers the call `call_id`.
pub open spec fn answers_token(message: MessageView, call_id: Seq<char>) -> bool {
    message.role == Role::Tool && message.tool_call_id == Some(call_id)
}

/// Whether the message at `result_at` answers a call of the assistant
/// message at `request_at`: every message after the request up to the
/// result is the tool message of the request's call at the same distance,
/// under the token of that call.
pub open spec fn answers_call(
    conversation: Seq<MessageView>,
    request_at: int,
    result_at: int,
) -> bool {
    &&& 0 <= request_at < result_at < conversation.len()
    &&& conversation[request_at].role == Role::Assistant
    &&& result_at - request_at <= conversation[request_at].tool_calls.len()
    &&& forall|k: int|
        request_at < k <= result_at ==> answers_token(
            #[trigger] conversation[k],
            conversation[request_at].tool_calls[k - request_at - 1].call_id,
        )
}

/// Whether every tool message of `conversation` answers a call that an
/// assistant message before it asked for, under the token of that call.
pub open spec fn correlated(conversation: Seq<MessageView>) -> bool {
    forall|j: int|
        0 <= j < conversation.len() && (#[trigger] conversation[j]).role == Role::Tool
            ==> exists|a: int| answers_call(conversation, a, j)
}

/// Whether every tool message of `conversation` answers a call that an
/// assistant message before it asked for, under the token of that call.
pub fn is_correlated(conversation: &Vec<Message>) -> (ok: bool)
    ensures
        ok == correlated(message_views(conversation@)),
{
    let ghost views = message_views(conversation@);
    let mut request_at: Option<usize> = None;
    let mut j: usize = 0;
    while j < conversation.len()
        invariant
            j <= conversation.len(),
            views == message_views(conversation@),
            forall|k: int|
                0 <= k < j && (#[trigger] views[k]).role == Role::Tool ==> exists|a: int|
                    answers_call(views, a, k),
            match request_at {
                Some(at) => {
                    &&& at < j
                    &&& views[at as int].role == Role::Assistant
                    &&& j - 1 - at <= views[at as int].tool_calls.len()
                    &&& forall|k: int|
                        at < k < j ==> answers_token(
                            #[trigger] views[k],
                            views[at as int].tool_calls[k - at - 1].call_id,
                        )
                },
                None => j == 0 || (views[j - 1].role != Role::Tool && views[j - 1].role
                    != Role::Assistant),
            },
        decreases conversation.len() - j,
    {
        let message = &conversation[j];
        assert(views[j as int] == message@);
        if message.role == Role::Tool {
            let answered = match request_at {
                Some(at) => {
                    let request = &conversation[at];
                    assert(views[at as int] == request@);
                    if j - at <= request.tool_calls.len() {
                        let call = &request.tool_calls[j - at - 1];
                        assert(request@.tool_calls[j - at - 1] == call@);
                        match &message.tool_call_id {
                            Some(token) => *token == call.call_id,
                            None => false,
                        }
                    } else {
                        false
                    }
                },
                None => false,
            };
            if !answered {
                proof {
                    assert forall|a: int| !answers_call(views, a, j as int) by {
                        if answers_call(views, a, j as int) {
                            match request_at {
                                Some(at) => {
                                    if a < at {
                                        assert(answers_token(
                                            views[at as int],
                                            views[a].tool_calls[at - a - 1].call_id,
                                        ));
                                    } else if a > at {
                                        assert(answers_token(
                                            views[a],
                                            views[at as int].tool_calls[a - at - 1].call_id,
                                        ));
                                    } else {
                                        assert(answers_token(
                                            views[j as int],
                                            views[a].tool_calls[j - a - 1].call_id,
                                        ));
                                    }
                                },
                                None => {
                                    if a < j - 1 {
                                        assert(answers_token(
                                            views[j - 1],
                                            views[a].tool_calls[j - 1 - a - 1].call_id,
                                        ));
                                    }
                                },
                            }
                        }
                    }
                    assert(views[j as int].role == Role::Tool);
                }
                return false;
            }
            proof {
                let at = request_at->0 as int;
                assert forall|k: int| at < k <= j implies answers_token(
                    #[trigger] views[k],
                    views[at].tool_calls[k - at - 1].call_id,
                ) by {}
                assert(answers_call(views, at, j as int));
            }
        } else if message.role == Role::Assistant {
            request_at = Some(j);
        } else {
            request_at = None;
        }
        j += 1;
    }
    true
}

/// One choice of a model turn: what the assistant says and the tool calls
/// it asks for, in the order it asks for them.
#[derive(Debug, PartialEq, Eq)]
pub struct Choice {
    pub content: Option<String>,
    pub tool_calls: Vec<ToolCallRequest>,
}

/// The mathematical content of a [`Choice`].
pub ghost struct ChoiceView {
    pub content: Option<Seq<char>>,
    pub tool_calls: Seq<ToolCallView>,
}

impl View for Choice {
    type V = ChoiceView;

    open spec fn view(&self) -> ChoiceView {
        ChoiceView {
            content: optional_text(self.content),
            tool_calls: call_views(self.tool_calls@),
        }
    }
}

/// The assistant message that records `choice` in the conversation.
pub open spec fn assistant_message(choice: ChoiceView) -> MessageView {
    MessageView {
        role: Role::Assistant,
        content: choice.content,
        tool_calls: choice.tool_calls,
        tool_call_id: None,
    }
}

impl Choice {
    /// A choice that answers with `text` and asks for no tool call.
    pub fn from_text(text: &str) -> (choice: Self)
        ensures
            choice@ == (ChoiceView { content: Some(text@), tool_calls: Seq::empty() }),
    {
        let choice = Choice { content: Some(text.to_owned()), tool_calls: Vec::new() };
        assert(call_views(choice.tool_calls@) =~= Seq::empty());
        choice
    }

    /// A choice that asks for `calls`, in that order, and says nothing.
    pub fn from_tool_calls(calls: Vec<ToolCallRequest>) -> (choice: Self)
        ensures
            choice@ == (ChoiceView { content: None, tool_calls: call_views(calls@) }),
    {
        Choice { content: None, tool_calls: calls }
    }

    /// The assistant message that records this choice in the conversation.
    pub fn into_message(self) -> (message: Message)
        ensures
            message@ == assistant_message(self@),
    {
        Message {
            role: Role::Assistant,
            content: self.content,
            tool_calls: self.tool_calls,
            tool_call_id: None,
        }
    }
}

/// What the model returns for one submission: its choices, the primary
/// choice first.
#[derive(Debug, PartialEq, Eq)]
pub struct ModelTurn {
    pub choices: Vec<Choice>,
}

impl View for ModelTurn {
    type V = Seq<ChoiceView>;

    open spec fn view(&self) -> Seq<ChoiceView> {
        self.choices@.map_values(|c: Choice| c@)
    }
}

} // verus!
