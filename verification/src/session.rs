//! The protocol session: one connect, handshake, discover, invoke, cancel
//! lifecycle against the transport of one tool, as a machine that is told
//! what happened and answers what to do next.

use crate::tool::{Tool, ToolView};
use vstd::prelude::*;

verus! {

/// Why an invocation gave no usable text.
#[derive(Debug, Clone, Copy, PartialEq, Eq, Structural)]
pub enum InvocationError {
    /// The peer failed the call.
    CallFailed,
    /// The response held no content block.
    EmptyResult,
    /// The first content block of the response was not text.
    UnsupportedContentType,
}

/// Why a session gave no result.
#[derive(Debug, Clone, Copy, PartialEq, Eq, Structural)]
pub enum SessionError {
    /// The transport could not be established.
    Connect,
    /// The handshake or the discovery failed against a connected peer, or
    /// something was reported out of turn.
    Protocol,
    /// The invocation failed.
    Invocation(InvocationError),
}

/// One block of a tool's response, by kind. Only text is read.
#[derive(Debug, PartialEq, Eq)]
pub enum ContentBlock {
    Text(String),
    Image,
    Audio,
    Resource,
}

/// The mathematical content of a [`ContentBlock`].
pub ghost enum ContentBlockView {
    Text(Seq<char>),
    Image,
    Audio,
    Resource,
}

impl View for ContentBlock {
    type V = ContentBlockView;

    open spec fn view(&self) -> ContentBlockView {
        match self {
            ContentBlock::Text(text) => ContentBlockView::Text(text@),
            ContentBlock::Image => ContentBlockView::Image,
            ContentBlock::Audio => ContentBlockView::Audio,
            ContentBlock::Resource => ContentBlockView::Resource,
        }
    }
}

/// What a tool answers to an invocation: its content blocks, in order.
#[derive(Debug, PartialEq, Eq)]
pub struct ToolResponse {
    pub content: Vec<ContentBlock>,
}

impl View for ToolResponse {
    type V = Seq<ContentBlockView>;

    open spec fn view(&self) -> Seq<ContentBlockView> {
        self.content@.map_values(|b: ContentBlock| b@)
    }
}

/// The result of an invocation: the text of the first content block. A
/// response without blocks, or whose first block is not text, has none.
pub open spec fn invocation_result(response: Seq<ContentBlockView>) -> Result<
    Seq<char>,
    InvocationError,
> {
    if response.len() == 0 {
        Err(InvocationError::EmptyResult)
    } else {
        match response[0] {
            ContentBlockView::Text(text) => Ok(text),
            _ => Err(InvocationError::UnsupportedContentType),
        }
    }
}

/// The text that a session hands back, or the reason it has none.
pub open spec fn outcome_view(outcome: Result<String, SessionError>) -> Result<
    Seq<char>,
    SessionError,
> {
    match outcome {
        Ok(text) => Ok(text@),
        Err(error) => Err(error),
    }
}

/// Reads the result of an invocation out of the tool's response.
pub fn first_text(response: &ToolResponse) -> (result: Result<String, InvocationError>)
    ensures
        match result {
            Ok(text) => invocation_result(response@) == Ok::<Seq<char>, InvocationError>(text@),
            Err(error) => invocation_result(response@) == Err::<Seq<char>, InvocationError>(
                error,
            ),
        },
        response@.len() == 0 ==> result == Err::<String, InvocationError>(
            InvocationError::EmptyResult,
        ),
{
    if response.content.len() == 0 {
        Err(InvocationError::EmptyResult)
    } else {
        match &response.content[0] {
            ContentBlock::Text(text) => Ok(text.clone()),
            _ => Err(InvocationError::UnsupportedContentType),
        }
    }
}

/// What the driver of a session reports back.
#[derive(Debug, PartialEq, Eq)]
pub enum SessionEvent {
    /// The transport is up: the process is started, or the endpoint is
    /// reached.
    Connected,
    /// The transport could not be established; nothing is held.
    ConnectFailed,
    /// The peer and the session agreed on version and capabilities.
    HandshakeDone,
    /// The handshake failed against the connected peer.
    HandshakeFailed,
    /// The peer listed its tools.
    ToolsListed,
    /// The peer failed to list its tools.
    ListFailed,
    /// The peer answered the invocation.
    Responded(ToolResponse),
    /// The peer failed the invocation.
    CallFailed,
    /// The peer was told to end the session and the transport is down.
    Cancelled,
    /// Ending the session failed; the transport is down all the same.
    CancelFailed,
}

/// The mathematical content of a [`SessionEvent`].
pub ghost enum SessionEventView {
    Connected,
    ConnectFailed,
    HandshakeDone,
    HandshakeFailed,
    ToolsListed,
    ListFailed,
    Responded(Seq<ContentBlockView>),
    CallFailed,
    Cancelled,
    CancelFailed,
}

impl View for SessionEvent {
    type V = SessionEventView;

    open spec fn view(&self) -> SessionEventView {
        match self {
            SessionEvent::Connected => SessionEventView::Connected,
            SessionEvent::ConnectFailed => SessionEventView::ConnectFailed,
            SessionEvent::HandshakeDone => SessionEventView::HandshakeDone,
            SessionEvent::HandshakeFailed => SessionEventView::HandshakeFailed,
            SessionEvent::ToolsListed => SessionEventView::ToolsListed,
            SessionEvent::ListFailed => SessionEventView::ListFailed,
            SessionEvent::Responded(response) => SessionEventView::Responded(response@),
            SessionEvent::CallFailed => SessionEventView::CallFailed,
            SessionEvent::Cancelled => SessionEventView::Cancelled,
            SessionEvent::CancelFailed => SessionEventView::CancelFailed,
        }
    }
}

/// What the driver of a session is to do next.
#[derive(Debug, PartialEq, Eq)]
pub enum SessionAction {
    /// Establish the transport of the session's tool: start its process,
    /// or reach its endpoint.
    Connect,
    /// Exchange version and capabilities with the peer.
    Handshake,
    /// Ask the peer for its tools.
    ListTools,
    /// Invoke the session's tool by its name with its arguments.
    Invoke,
    /// Tell the peer to end the session and take the transport down.
    Cancel,
    /// Nothing more: the session is over with this result.
    Finish(Result<String, SessionError>),
}

/// The mathematical content of a [`SessionAction`].
pub ghost enum SessionActionView {
    Connect,
    Handshake,
    ListTools,
    Invoke,
    Cancel,
    Finish(Result<Seq<char>, SessionError>),
}

impl View for SessionAction {
    type V = SessionActionView;

    open spec fn view(&self) -> SessionActionView {
        match self {
            SessionAction::Connect => SessionActionView::Connect,
            SessionAction::Handshake => SessionActionView::Handshake,
            SessionAction::ListTools => SessionActionView::ListTools,
            SessionAction::Invoke => SessionActionView::Invoke,
            SessionAction::Cancel => SessionActionView::Cancel,
            SessionAction::Finish(outcome) => SessionActionView::Finish(outcome_view(*outcome)),
        }
    }
}

/// Where a session stands.
#[derive(Debug, PartialEq, Eq)]
pub enum SessionState {
    /// Asked to connect; nothing is held yet.
    Connecting,
    /// Connected; asked to shake hands.
    Handshaking,
    /// Asked for the peer's tools.
    Discovering,
    /// Asked to invoke the tool.
    Invoking,
    /// The result is settled; asked to end the session.
    Closing(Result<String, SessionError>),
    /// Over, with nothing held.
    Finished(Result<String, SessionError>),
}

/// The mathematical content of a [`SessionState`].
pub ghost enum SessionStateView {
    Connecting,
    Handshaking,
    Discovering,
    Invoking,
    Closing(Result<Seq<char>, SessionError>),
    Finished(Result<Seq<char>, SessionError>),
}

impl View for SessionState {
    type V = SessionStateView;

    open spec fn view(&self) -> SessionStateView {
        match self {
            SessionState::Connecting => SessionStateView::Connecting,
            SessionState::Handshaking => SessionStateView::Handshaking,
            SessionState::Discovering => SessionStateView::Discovering,
            SessionState::Invoking => SessionStateView::Invoking,
            SessionState::Closing(outcome) => SessionStateView::Closing(outcome_view(*outcome)),
            SessionState::Finished(outcome) => SessionStateView::Finished(outcome_view(*outcome)),
        }
    }
}

/// Whether a session in `state` holds a live transport.
pub open spec fn holds_transport(state: SessionStateView) -> bool {
    state is Handshaking || state is Discovering || state is Invoking || state is Closing
}

/// The outcome that an invocation's result settles.
pub open spec fn settled(result: Result<Seq<char>, InvocationError>) -> Result<
    Seq<char>,
    SessionError,
> {
    match result {
        Ok(text) => Ok(text),
        Err(error) => Err(SessionError::Invocation(error)),
    }
}

/// The transition of a session: the state after `event` and the action that
/// answers it.
///
/// The session connects, shakes hands, asks for the peer's tools, invokes
/// its tool and ends the session, in this order. A transport that cannot be
/// established ends the session at once, as a connect failure. From then
/// on the session holds a transport, and it never finishes before it has
/// asked for the transport to be taken down, whatever went wrong: a failed
/// handshake or discovery is a protocol failure, a failed call or a
/// response without a leading text block is an invocation failure. Once the
/// result is settled, the way the session ends does not change it. An event
/// that the state does not wait for counts as a protocol failure, except
/// while closing, where the request to end the session is repeated, and
/// after the end, where the result is repeated.
pub open spec fn session_step(state: SessionStateView, event: SessionEventView) -> (
    SessionStateView,
    SessionActionView,
) {
    match state {
        SessionStateView::Connecting => match event {
            SessionEventView::Connected => (
                SessionStateView::Handshaking,
                SessionActionView::Handshake,
            ),
            SessionEventView::ConnectFailed => (
                SessionStateView::Finished(Err(SessionError::Connect)),
                SessionActionView::Finish(Err(SessionError::Connect)),
            ),
            _ => (
                SessionStateView::Finished(Err(SessionError::Protocol)),
                SessionActionView::Finish(Err(SessionError::Protocol)),
            ),
        },
        SessionStateView::Handshaking => match event {
            SessionEventView::HandshakeDone => (
                SessionStateView::Discovering,
                SessionActionView::ListTools,
            ),
            _ => (
                SessionStateView::Closing(Err(SessionError::Protocol)),
                SessionActionView::Cancel,
            ),
        },
        SessionStateView::Discovering => match event {
            SessionEventView::ToolsListed => (
                SessionStateView::Invoking,
                SessionActionView::Invoke,
            ),
            _ => (
                SessionStateView::Closing(Err(SessionError::Protocol)),
                SessionActionView::Cancel,
            ),
        },
        SessionStateView::Invoking => match event {
            SessionEventView::Responded(response) => (
                SessionStateView::Closing(settled(invocation_result(response))),
                SessionActionView::Cancel,
            ),
            SessionEventView::CallFailed => (
                SessionStateView::Closing(
                    Err(SessionError::Invocation(InvocationError::CallFailed)),
                ),
                SessionActionView::Cancel,
            ),
            _ => (
                SessionStateView::Closing(Err(SessionError::Protocol)),
                SessionActionView::Cancel,
            ),
        },
        SessionStateView::Closing(outcome) => match event {
            SessionEventView::Cancelled | SessionEventView::CancelFailed => (
                SessionStateView::Finished(outcome),
                SessionActionView::Finish(outcome),
            ),
            _ => (SessionStateView::Closing(outcome), SessionActionView::Cancel),
        },
        SessionStateView::Finished(outcome) => (
            SessionStateView::Finished(outcome),
            SessionActionView::Finish(outcome),
        ),
    }
}

/// A copy of an outcome.
pub fn copied_outcome(outcome: &Result<String, SessionError>) -> (copy: Result<
    String,
    SessionError,
>)
    ensures
        outcome_view(copy) == outcome_view(*outcome),
{
    match outcome {
        Ok(text) => Ok(text.clone()),
        Err(error) => Err(*error),
    }
}

/// One session against the transport of one tool.
#[derive(Debug)]
pub struct Session {
    tool: Tool,
    state: SessionState,
}

/// The mathematical content of a [`Session`].
pub ghost struct SessionView {
    pub tool: ToolView,
    pub state: SessionStateView,
}

impl View for Session {
    type V = SessionView;

    closed spec fn view(&self) -> SessionView {
        SessionView { tool: self.tool@, state: self.state@ }
    }
}

impl Session {
    /// A fresh session for one invocation of `tool`. It holds nothing yet;
    /// the action that starts it is to connect.
    pub fn open(tool: Tool) -> (started: (Session, SessionAction))
        ensures
            started.0@ == (SessionView { tool: tool@, state: SessionStateView::Connecting }),
            started.1@ == SessionActionView::Connect,
    {
        (Session { tool, state: SessionState::Connecting }, SessionAction::Connect)
    }

    /// The tool that this session invokes.
    pub fn tool(&self) -> (tool: &Tool)
        ensures
            tool@ == self@.tool,
    {
        &self.tool
    }

    /// Where the session stands.
    pub fn state(&self) -> (state: &SessionState)
        ensures
            state@ == self@.state,
    {
        &self.state
    }

    /// Whether the session is over.
    pub fn is_finished(&self) -> (finished: bool)
        ensures
            finished == (self@.state is Finished),
    {
        match &self.state {
            SessionState::Finished(_) => true,
            _ => false,
        }
    }

    /// Takes `event` and answers with the session after it and the next
    /// action, as [`session_step`] lays down. The tool stays the same.
    pub fn step(self, event: SessionEvent) -> (next: (Session, SessionAction))
        ensures
            next.0@.tool == self@.tool,
            (next.0@.state, next.1@) == session_step(self@.state, event@),
    {
        let Session { tool, state } = self;
        let (state, action) = match state {
            SessionState::Connecting => match event {
                SessionEvent::Connected => (SessionState::Handshaking, SessionAction::Handshake),
                SessionEvent::ConnectFailed => (
                    SessionState::Finished(Err(SessionError::Connect)),
                    SessionAction::Finish(Err(SessionError::Connect)),
                ),
                _ => (
                    SessionState::Finished(Err(SessionError::Protocol)),
                    SessionAction::Finish(Err(SessionError::Protocol)),
                ),
            },
            SessionState::Handshaking => match event {
                SessionEvent::HandshakeDone => (
                    SessionState::Discovering,
                    SessionAction::ListTools,
                ),
                _ => (SessionState::Closing(Err(SessionError::Protocol)), SessionAction::Cancel),
            },
            SessionState::Discovering => match event {
                SessionEvent::ToolsListed => (SessionState::Invoking, SessionAction::Invoke),
                _ => (SessionState::Closing(Err(SessionError::Protocol)), SessionAction::Cancel),
            },
            SessionState::Invoking => match event {
                SessionEvent::Responded(response) => {
                    let outcome = match first_text(&response) {
                        Ok(text) => Ok(text),
                        Err(error) => Err(SessionError::Invocation(error)),
                    };
                    (SessionState::Closing(outcome), SessionAction::Cancel)
                },
                SessionEvent::CallFailed => (
                    SessionState::Closing(
                        Err(SessionError::Invocation(InvocationError::CallFailed)),
                    ),
                    SessionAction::Cancel,
                ),
                _ => (SessionState::Closing(Err(SessionError::Protocol)), SessionAction::Cancel),
            },
            SessionState::Closing(outcome) => match event {
                SessionEvent::Cancelled | SessionEvent::CancelFailed => {
                    let copy = copied_outcome(&outcome);
                    (SessionState::Finished(outcome), SessionAction::Finish(copy))
                },
                _ => (SessionState::Closing(outcome), SessionAction::Cancel),
            },
            SessionState::Finished(outcome) => {
                let copy = copied_outcome(&outcome);
                (SessionState::Finished(outcome), SessionAction::Finish(copy))
            },
        };
        (Session { tool, state }, action)
    }
}

} // verus!
