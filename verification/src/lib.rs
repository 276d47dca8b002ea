//! Tool orchestration for a conversational model: tool descriptors, the
//! schema shown to the model, the protocol session that reaches a tool, and
//! the loop that folds tool results back into the conversation.

pub mod arguments;
pub mod calculator;
pub mod conversation;
pub mod decimal;
pub mod loop_laws;
pub mod orchestration;
pub mod schema;
pub mod session;
pub mod session_laws;
pub mod tool;
