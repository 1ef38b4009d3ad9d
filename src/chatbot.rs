use vstd::prelude::*;

use crate::message::{Message, Role};

verus! {

/// Why a call to a backend, or one item of its response stream, failed.
#[derive(PartialEq, Eq, Structural, Clone, Copy, Debug)]
pub enum ChatbotError {
    ApiKeyMissing,
    Timeout,
    ServerError,
    NetworkError,
    UnexpectedResponse,
}

impl ChatbotError {
    /// The text shown to the user for this error.
    pub fn message(&self) -> (r: &'static str)
        ensures
            r@ == error_text(*self),
    {
        match self {
            ChatbotError::ApiKeyMissing => "API key missing.",
            ChatbotError::Timeout => "Timeout.",
            ChatbotError::ServerError => "Server error.",
            ChatbotError::NetworkError => "Network error.",
            ChatbotError::UnexpectedResponse => "Unexpected response.",
        }
    }
}

pub open spec fn error_text(e: ChatbotError) -> Seq<char> {
    match e {
        ChatbotError::ApiKeyMissing => "API key missing."@,
        ChatbotError::Timeout => "Timeout."@,
        ChatbotError::ServerError => "Server error."@,
        ChatbotError::NetworkError => "Network error."@,
        ChatbotError::UnexpectedResponse => "Unexpected response."@,
    }
}

/// Why a backend could not be built.
#[derive(PartialEq, Eq, Structural, Clone, Copy, Debug)]
pub enum ChatbotCreationError {
    UnknownChatbot,
}

/// A model name that the backend does not support.
#[derive(PartialEq, Eq, Structural, Clone, Copy, Debug)]
pub struct InvalidModelError;

/// The single model that the no-op backend offers.
pub open spec fn dummy_model() -> Seq<char> {
    "1"@
}

/// What the no-op backend answers to a transcript.
pub open spec fn dummy_reply(hist: Seq<(Role, Seq<char>)>) -> Seq<char> {
    if hist.len() == 0 {
        "Dummy response to empty conversation."@
    } else if hist.last().0 == Role::User {
        "Dummy response to: \""@ + hist.last().1 + "\"."@
    } else {
        "Dummy response."@
    }
}

/// The view of a slice of messages.
pub open spec fn history(messages: Seq<Message>) -> Seq<(Role, Seq<char>)> {
    messages.map_values(|m: Message| m@)
}

/// A deterministic backend that never touches the network.
#[derive(PartialEq, Eq, Structural, Clone, Copy, Debug, Default)]
pub struct DummyChatbot;

impl DummyChatbot {
    pub fn create(_model: String, _api_key: Option<String>) -> (r: Result<
        DummyChatbot,
        ChatbotCreationError,
    >)
        ensures
            r is Ok,
    {
        Ok(DummyChatbot)
    }

    pub fn name(&self) -> (r: &'static str)
        ensures
            r@ == "Dummy"@,
    {
        "Dummy"
    }

    pub fn model(&self) -> (r: &'static str)
        ensures
            r@ == dummy_model(),
    {
        "1"
    }

    pub fn available_models(&self) -> (r: Vec<String>)
        ensures
            r@.len() == 1,
            r@[0]@ == dummy_model(),
    {
        let mut v: Vec<String> = Vec::new();
        v.push(String::from_str("1"));
        v
    }

    /// Accepts only a model that `available_models` lists.
    pub fn change_model(&mut self, new_model: String) -> (r: Result<(), InvalidModelError>)
        ensures
            r is Ok <==> new_model@ == dummy_model(),
            *final(self) == *old(self),
    {
        let one = String::from_str("1");
        if new_model == one {
            Ok(())
        } else {
            Err(InvalidModelError)
        }
    }

    /// The text of the single chunk that `send_message` emits.
    pub fn reply_text(messages: &[Message]) -> (r: String)
        ensures
            r@ == dummy_reply(history(messages@)),
    {
        let n = messages.len();
        if n == 0 {
            String::from_str("Dummy response to empty conversation.")
        } else {
            let last = &messages[n - 1];
            if last.role == Role::User {
                let mut s = String::from_str("Dummy response to: \"");
                s.append(last.content.as_str());
                s.append("\".");
                s
            } else {
                String::from_str("Dummy response.")
            }
        }
    }

    /// The response stream, as the chunks it yields in order: always one chunk.
    pub fn send_message(&self, messages: &[Message]) -> (r: Result<Vec<String>, ChatbotError>)
        ensures
            r is Ok,
            r->Ok_0@.len() == 1,
            r->Ok_0@[0]@ == dummy_reply(history(messages@)),
    {
        let mut chunks: Vec<String> = Vec::new();
        chunks.push(Self::reply_text(messages));
        Ok(chunks)
    }
}

/// Whether two texts are equal.
pub fn same_text(a: &str, b: &str) -> (r: bool)
    ensures
        r == (a@ == b@),
{
    let x = String::from_str(a);
    let y = String::from_str(b);
    x == y
}

/// The active backend: one variant per provider that the library can drive.
#[derive(PartialEq, Eq, Structural, Clone, Copy, Debug)]
pub enum Backend {
    Dummy(DummyChatbot),
}

/// Builds the backend that `name` selects; the only name known is `dummy`.
pub fn create_chatbot(name: &str, model: String, api_key: Option<String>) -> (r: Result<
    Backend,
    ChatbotCreationError,
>)
    ensures
        r == created_backend(name@),
{
    if same_text(name, "dummy") {
        match DummyChatbot::create(model, api_key) {
            Ok(d) => Ok(Backend::Dummy(d)),
            Err(e) => Err(e),
        }
    } else {
        Err(ChatbotCreationError::UnknownChatbot)
    }
}

pub open spec fn created_backend(name: Seq<char>) -> Result<Backend, ChatbotCreationError> {
    if name == "dummy"@ {
        Ok(Backend::Dummy(DummyChatbot))
    } else {
        Err(ChatbotCreationError::UnknownChatbot)
    }
}

impl Backend {
    pub fn name(&self) -> (r: &'static str)
        ensures
            r@ == self.name_spec(),
    {
        match self {
            Backend::Dummy(d) => d.name(),
        }
    }

    pub open spec fn name_spec(&self) -> Seq<char> {
        match self {
            Backend::Dummy(_) => "Dummy"@,
        }
    }

    pub fn model(&self) -> (r: &'static str)
        ensures
            r@ == self.model_spec(),
    {
        match self {
            Backend::Dummy(d) => d.model(),
        }
    }

    pub open spec fn model_spec(&self) -> Seq<char> {
        match self {
            Backend::Dummy(_) => dummy_model(),
        }
    }

    pub fn available_models(&self) -> (r: Vec<String>)
        ensures
            r@.map_values(|m: String| m@) == self.models_spec(),
    {
        match self {
            Backend::Dummy(d) => {
                let v = d.available_models();
                assert(v@.map_values(|m: String| m@) =~= seq![dummy_model()]);
                v
            },
        }
    }

    /// The backend once switched to model `m`, of the same provider.
    pub open spec fn with_model(self, m: Seq<char>) -> Backend {
        match self {
            Backend::Dummy(d) => Backend::Dummy(d),
        }
    }

    pub open spec fn models_spec(&self) -> Seq<Seq<char>> {
        match self {
            Backend::Dummy(_) => seq![dummy_model()],
        }
    }

    /// Switches to `new_model` when the backend supports it; else nothing changes.
    pub fn change_model(&mut self, new_model: String) -> (r: Result<(), InvalidModelError>)
        ensures
            r is Ok <==> old(self).models_spec().contains(new_model@),
            r is Ok ==> *final(self) == old(self).with_model(new_model@),
            r is Ok ==> final(self).model_spec() == new_model@,
            r is Err ==> *final(self) == *old(self),
    {
        match self {
            Backend::Dummy(d) => {
                let r = d.change_model(new_model);
                assert(seq![dummy_model()][0] == dummy_model());
                r
            },
        }
    }

    /// The response stream, as the chunks it yields in order.
    pub fn send_message(&self, messages: &[Message]) -> (r: Result<Vec<String>, ChatbotError>)
        ensures
            self is Dummy ==> (r is Ok && r->Ok_0@.len() == 1 && r->Ok_0@[0]@ == dummy_reply(
                history(messages@),
            )),
    {
        match self {
            Backend::Dummy(d) => d.send_message(messages),
        }
    }
}

} // verus!
