//! An agentic function-calling loop: a conversation is sent to a chat model,
//! tool calls in its replies are carried out, and the loop ends with the
//! model's first plain-text answer.

pub mod message;
pub mod laws;
pub mod page;
pub mod session;
pub mod text;
pub mod tools;
