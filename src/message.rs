//! The conversation model: messages, tool calls, tool declarations, and the
//! error kinds of an exchange.

use vstd::prelude::*;

verus! {

/// Who authored a message.
#[derive(PartialEq, Eq, Structural, Clone, Copy, Debug)]
pub enum Role {
    System,
    User,
    Assistant,
    ToolResult,
}

/// A model's request to invoke a tool: its name and its raw argument text.
#[derive(Clone, Debug)]
pub struct ToolCall {
    pub name: String,
    pub arguments: String,
}

/// One turn of a conversation.
#[derive(Clone, Debug)]
pub struct Message {
    pub role: Role,
    pub content: Option<String>,
    pub tool_call: Option<ToolCall>,
}

/// A tool as it is declared to the model.
#[derive(Clone, Debug)]
pub struct ToolSpec {
    pub name: String,
    pub description: String,
    /// JSON-Schema text describing the expected arguments.
    pub parameter_schema: String,
}

/// Why an exchange stopped without an answer.
#[derive(PartialEq, Eq, Structural, Clone, Copy, Debug)]
pub enum AgentError {
    ChatCompletionFailed,
    MalformedToolArguments,
    FetchFailed,
    UnknownTool,
    TurnLimitExceeded,
}

pub ghost struct ToolCallView {
    pub name: Seq<char>,
    pub arguments: Seq<char>,
}

pub ghost struct MessageView {
    pub role: Role,
    pub content: Option<Seq<char>>,
    pub tool_call: Option<ToolCallView>,
}

pub open spec fn text_view(t: Option<String>) -> Option<Seq<char>> {
    match t {
        Some(s) => Some(s@),
        None => None,
    }
}

impl View for ToolCall {
    type V = ToolCallView;

    open spec fn view(&self) -> ToolCallView {
        ToolCallView { name: self.name@, arguments: self.arguments@ }
    }
}

impl View for Message {
    type V = MessageView;

    open spec fn view(&self) -> MessageView {
        MessageView {
            role: self.role,
            content: text_view(self.content),
            tool_call: match self.tool_call {
                Some(c) => Some(c@),
                None => None,
            },
        }
    }
}

/// The abstract value of a sequence of messages, oldest first.
pub open spec fn conversation_view(msgs: Seq<Message>) -> Seq<MessageView> {
    msgs.map_values(|m: Message| m@)
}

/// The message that carries a tool's output back into the conversation.
pub open spec fn tool_result_view(text: Seq<char>) -> MessageView {
    MessageView { role: Role::ToolResult, content: Some(text), tool_call: None }
}

/// The text an answer carries: its content, or nothing.
pub open spec fn answer_text(m: MessageView) -> Seq<char> {
    match m.content {
        Some(t) => t,
        None => Seq::<char>::empty(),
    }
}

impl Message {
    /// A message from the user.
    pub fn user(text: String) -> (r: Message)
        ensures
            r@ == (MessageView { role: Role::User, content: Some(text@), tool_call: None }),
    {
        Message { role: Role::User, content: Some(text), tool_call: None }
    }

    /// A system instruction.
    pub fn system(text: String) -> (r: Message)
        ensures
            r@ == (MessageView { role: Role::System, content: Some(text@), tool_call: None }),
    {
        Message { role: Role::System, content: Some(text), tool_call: None }
    }

    /// A tool's output, fed back to the model.
    pub fn tool_result(text: String) -> (r: Message)
        ensures
            r@ == tool_result_view(text@),
    {
        Message { role: Role::ToolResult, content: Some(text), tool_call: None }
    }

    /// The text of this message taken as a final answer (empty if none).
    pub fn answer(&self) -> (r: String)
        ensures
            r@ == answer_text(self@),
    {
        match &self.content {
            Some(t) => t.clone(),
            None => String::new(),
        }
    }
}

} // verus!
