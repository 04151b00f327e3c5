//! The conversation orchestrator as a state machine. Each chat completion and
//! each page fetch is performed by the caller; the session decides, from
//! what came back, what to do next and keeps the conversation.

use vstd::prelude::*;
use crate::message::{
    AgentError, Message, MessageView, ToolCallView, answer_text, conversation_view,
    tool_result_view,
};
use crate::page::{is_page_text, page_text};
use crate::tools::{Tool, arguments_url, tool_named, url_argument, url_view};

verus! {

/// Tool calls allowed in one exchange unless the caller chooses otherwise.
/// The limit counts tool calls, not chat requests: a limit of `n` allows
/// `n + 1` chat requests.
pub const DEFAULT_MAX_TOOL_CALLS: usize = 8;

/// Where a session stands.
#[derive(PartialEq, Eq, Structural, Clone, Copy, Debug)]
pub enum Phase {
    /// A chat completion has been requested for the current conversation.
    AwaitingReply,
    /// A page fetch has been requested.
    AwaitingPage,
    /// The exchange is over, with an answer or an error.
    Done,
}

/// What happened since the last step.
#[derive(Debug)]
pub enum Event {
    /// The model replied with plain text.
    Answered(String),
    /// The model asked for a tool; the tool's url argument, or why it could
    /// not be read.
    ToolRequested(Result<String, AgentError>),
    /// The chat completion failed.
    ChatFailed,
    /// The requested tool ran and produced this text.
    ToolOutput(String),
    /// The page fetch failed.
    FetchFailed,
}

/// What the caller must do next.
#[derive(Clone, Debug)]
pub enum Action {
    /// Request a chat completion for the session's conversation.
    SendChat,
    /// Fetch the page at this url.
    FetchPage(String),
    /// The exchange ended with this answer.
    Finish(String),
    /// The exchange ended with this error.
    Fail(AgentError),
    /// The event did not fit the session's phase and was disregarded.
    Ignore,
}

pub ghost enum EventView {
    Answered(Seq<char>),
    ToolRequested(Result<Seq<char>, AgentError>),
    ChatFailed,
    ToolOutput(Seq<char>),
    FetchFailed,
}

pub ghost enum ActionView {
    SendChat,
    FetchPage(Seq<char>),
    Finish(Seq<char>),
    Fail(AgentError),
    Ignore,
}

impl View for Event {
    type V = EventView;

    open spec fn view(&self) -> EventView {
        match self {
            Event::Answered(t) => EventView::Answered(t@),
            Event::ToolRequested(r) => EventView::ToolRequested(url_view(*r)),
            Event::ChatFailed => EventView::ChatFailed,
            Event::ToolOutput(t) => EventView::ToolOutput(t@),
            Event::FetchFailed => EventView::FetchFailed,
        }
    }
}

impl View for Action {
    type V = ActionView;

    open spec fn view(&self) -> ActionView {
        match self {
            Action::SendChat => ActionView::SendChat,
            Action::FetchPage(u) => ActionView::FetchPage(u@),
            Action::Finish(t) => ActionView::Finish(t@),
            Action::Fail(e) => ActionView::Fail(*e),
            Action::Ignore => ActionView::Ignore,
        }
    }
}

/// The abstract state of a session.
pub ghost struct SessionView {
    /// Every message sent so far, oldest first.
    pub conversation: Seq<MessageView>,
    /// Tool calls carried out so far.
    pub tool_calls: nat,
    /// Tool calls allowed in one exchange (so at most one more chat request).
    pub max_tool_calls: nat,
    pub phase: Phase,
}

/// The state a session ends in, unchanged but for its phase.
pub open spec fn finished(s: SessionView) -> SessionView {
    SessionView { phase: Phase::Done, ..s }
}

/// One step of the orchestrator: the next state and action after event `e`
/// in state `s`.
pub open spec fn next(s: SessionView, e: EventView) -> (SessionView, ActionView) {
    match s.phase {
        Phase::AwaitingReply => match e {
            EventView::Answered(t) => (finished(s), ActionView::Finish(t)),
            EventView::ToolRequested(r) => if s.tool_calls >= s.max_tool_calls {
                (finished(s), ActionView::Fail(AgentError::TurnLimitExceeded))
            } else {
                match r {
                    Ok(url) => (
                        SessionView {
                            tool_calls: s.tool_calls + 1,
                            phase: Phase::AwaitingPage,
                            ..s
                        },
                        ActionView::FetchPage(url),
                    ),
                    Err(err) => (finished(s), ActionView::Fail(err)),
                }
            },
            EventView::ChatFailed => (
                finished(s),
                ActionView::Fail(AgentError::ChatCompletionFailed),
            ),
            _ => (s, ActionView::Ignore),
        },
        Phase::AwaitingPage => match e {
            EventView::ToolOutput(t) => (
                SessionView {
                    conversation: s.conversation.push(tool_result_view(t)),
                    phase: Phase::AwaitingReply,
                    ..s
                },
                ActionView::SendChat,
            ),
            EventView::FetchFailed => (finished(s), ActionView::Fail(AgentError::FetchFailed)),
            _ => (s, ActionView::Ignore),
        },
        Phase::Done => (s, ActionView::Ignore),
    }
}

/// What a tool call asks for: an unknown tool is an error; for the page
/// fetcher, the outcome of reading its `url` argument.
pub open spec fn tool_request(call: ToolCallView) -> Result<Seq<char>, AgentError> {
    match tool_named(call.name) {
        None => Err(AgentError::UnknownTool),
        Some(Tool::FetchPageText) => arguments_url(call.arguments),
    }
}

/// Turns the model's reply into an event: plain text is an answer (empty if
/// the reply has no content); a tool call is resolved against the registry
/// and its arguments are read.
pub fn read_reply(reply: &Message) -> (e: Event)
    ensures
        reply@.tool_call is None ==> e@ == EventView::Answered(answer_text(reply@)),
        reply@.tool_call is Some ==> e@ == EventView::ToolRequested(
            tool_request(reply@.tool_call->0),
        ),
{
    match &reply.tool_call {
        None => Event::Answered(reply.answer()),
        Some(call) => {
            assert(reply@.tool_call->0 == call@);
            match Tool::resolve(&call.name) {
                None => Event::ToolRequested(Err(AgentError::UnknownTool)),
                Some(Tool::FetchPageText) => Event::ToolRequested(
                    url_argument(call.arguments.as_str()),
                ),
            }
        },
    }
}

impl Event {
    /// The event for a fetched page: its markup turned into tool output, or
    /// a failed fetch when the markup cannot be rendered.
    pub fn page_fetched(markup: &str) -> (e: Event)
        ensures
            e@ matches EventView::ToolOutput(t) ==> is_page_text(markup@, Ok(t)),
            e@ matches EventView::FetchFailed ==> is_page_text(
                markup@,
                Err(AgentError::FetchFailed),
            ),
            e@ is ToolOutput || e@ is FetchFailed,
    {
        match page_text(markup) {
            Ok(t) => Event::ToolOutput(t),
            Err(_) => Event::FetchFailed,
        }
    }
}

/// One exchange with the model, from the first request to its answer.
pub struct Session {
    conversation: Vec<Message>,
    tool_calls: usize,
    max_tool_calls: usize,
    phase: Phase,
}

impl View for Session {
    type V = SessionView;

    closed spec fn view(&self) -> SessionView {
        SessionView {
            conversation: conversation_view(self.conversation@),
            tool_calls: self.tool_calls as nat,
            max_tool_calls: self.max_tool_calls as nat,
            phase: self.phase,
        }
    }
}

impl Session {
    /// Starts an exchange on `conversation`, allowing at most
    /// `max_tool_calls` tool calls. The caller's first action is to request a
    /// chat completion.
    pub fn new(conversation: Vec<Message>, max_tool_calls: usize) -> (r: Session)
        ensures
            r@ == (SessionView {
                conversation: conversation_view(conversation@),
                tool_calls: 0,
                max_tool_calls: max_tool_calls as nat,
                phase: Phase::AwaitingReply,
            }),
            r.inv(),
    {
        Session { conversation, tool_calls: 0, max_tool_calls, phase: Phase::AwaitingReply }
    }

    /// The session's invariant: no more tool calls than allowed.
    pub closed spec fn inv(&self) -> bool {
        self.tool_calls <= self.max_tool_calls
    }

    /// The conversation to send with the next chat completion.
    pub fn conversation(&self) -> (r: &Vec<Message>)
        ensures
            conversation_view(r@) == self@.conversation,
    {
        &self.conversation
    }

    /// Where the session stands.
    pub fn phase(&self) -> (r: Phase)
        ensures
            r == self@.phase,
    {
        self.phase
    }

    /// Takes in an event and returns the caller's next action.
    pub fn step(&mut self, event: Event) -> (a: Action)
        requires
            old(self).inv(),
        ensures
            final(self).inv(),
            (final(self)@, a@) == next(old(self)@, event@),
    {
        match self.phase {
            Phase::AwaitingReply => match event {
                Event::Answered(t) => {
                    self.phase = Phase::Done;
                    Action::Finish(t)
                },
                Event::ToolRequested(r) => {
                    if self.tool_calls >= self.max_tool_calls {
                        self.phase = Phase::Done;
                        Action::Fail(AgentError::TurnLimitExceeded)
                    } else {
                        match r {
                            Ok(url) => {
                                self.tool_calls = self.tool_calls + 1;
                                self.phase = Phase::AwaitingPage;
                                Action::FetchPage(url)
                            },
                            Err(err) => {
                                self.phase = Phase::Done;
                                Action::Fail(err)
                            },
                        }
                    }
                },
                Event::ChatFailed => {
                    self.phase = Phase::Done;
                    Action::Fail(AgentError::ChatCompletionFailed)
                },
                _ => Action::Ignore,
            },
            Phase::AwaitingPage => match event {
                Event::ToolOutput(t) => {
                    let ghost before = self.conversation@;
                    self.conversation.push(Message::tool_result(t));
                    proof {
                        assert(conversation_view(self.conversation@) =~= conversation_view(
                            before,
                        ).push(tool_result_view(t@)));
                    }
                    self.phase = Phase::AwaitingReply;
                    Action::SendChat
                },
                Event::FetchFailed => {
                    self.phase = Phase::Done;
                    Action::Fail(AgentError::FetchFailed)
                },
                _ => Action::Ignore,
            },
            Phase::Done => Action::Ignore,
        }
    }
}

} // verus!
