//! A terminal chat client's core: the message model, the backends, the
//! streaming consumer, the transcript with its stored form, and the
//! slash-command state machine.
use vstd::prelude::*;

pub mod chat;
pub mod chatbot;
pub mod command;
pub mod message;
pub mod session;
pub mod stream;

pub use chatbot::{Backend, ChatbotCreationError, ChatbotError, DummyChatbot, InvalidModelError};
pub use message::{Message, Role};

verus! {

} // verus!
