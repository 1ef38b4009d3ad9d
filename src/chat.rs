use vstd::prelude::*;

use crate::chatbot::{dummy_reply, history, Backend, ChatbotError};
use crate::command::{split_tokens, whitespace_tokens};
use crate::message::{Message, Role};
use crate::session::Session;
use crate::stream::{all_ok, collect_response, concat, ok_texts, texts_of};

verus! {

/// How the loop treats one line of input.
#[derive(PartialEq, Eq, Structural, Clone, Copy, Debug)]
pub enum InputKind {
    /// Only whitespace: ignored.
    Blank,
    /// Starts with `/`: a command, even if it reads as chat.
    Command,
    /// Anything else: sent to the backend as the user's message.
    Chat,
}

pub open spec fn input_kind_of(line: Seq<char>) -> InputKind {
    if whitespace_tokens(line).len() == 0 {
        InputKind::Blank
    } else if line.len() > 0 && line[0] == '/' {
        InputKind::Command
    } else {
        InputKind::Chat
    }
}

pub fn classify_input(line: &str) -> (r: InputKind)
    ensures
        r == input_kind_of(line@),
{
    let parts = split_tokens(line);
    if parts.len() == 0 {
        InputKind::Blank
    } else if line.unicode_len() > 0 && line.get_char(0) == '/' {
        InputKind::Command
    } else {
        InputKind::Chat
    }
}

/// Sends the transcript to the backend and drains the response into `sink`,
/// giving back the assistant message; the transcript is not touched.
pub fn handle_chat_message(hist: &[Message], chatbot: &Backend, sink: &mut Vec<String>) -> (r:
    Result<Message, ChatbotError>)
    ensures
        chatbot is Dummy ==> r is Ok && r->Ok_0@ == (Role::Assistant, dummy_reply(history(hist@)))
            && texts_of(final(sink)@) == texts_of(old(sink)@).push(dummy_reply(history(hist@))),
{
    match chatbot.send_message(hist) {
        Ok(chunks) => {
            let mut items: Vec<Result<String, ChatbotError>> = Vec::new();
            let mut i: usize = 0;
            while i < chunks.len()
                invariant
                    i <= chunks@.len(),
                    items@.len() == i,
                    forall|j: int| 0 <= j < i ==> items@[j] is Ok && items@[j]->Ok_0@ == chunks@[j]@,
                decreases chunks@.len() - i,
            {
                items.push(Ok(chunks[i].clone()));
                i = i + 1;
            }
            proof {
                if chatbot is Dummy {
                    let one = items@;
                    let t = chunks@[0]@;
                    assert(one.drop_last() =~= Seq::<Result<String, ChatbotError>>::empty());
                    assert(ok_texts(one.drop_last()) == Seq::<Seq<char>>::empty());
                    assert(one.last() == one[0]);
                    assert(ok_texts(one) =~= seq![t]);
                    assert(seq![t].drop_last() =~= Seq::<Seq<char>>::empty());
                    assert(concat(seq![t].drop_last()) == Seq::<char>::empty());
                    assert(concat(seq![t]) =~= t);
                    assert(all_ok(one));
                }
            }
            collect_response(items, sink)
        },
        Err(e) => Err(e),
    }
}

/// One chat turn: the user's message joins the transcript, the backend's
/// answer is drained into `sink`, and on success the assistant message joins
/// the transcript too. On failure the user's message stays.
pub fn chat_turn(session: &mut Session, chatbot: &Backend, content: String, sink: &mut Vec<String>) -> (r:
    Result<(), ChatbotError>)
    requires
        old(session).wf(),
    ensures
        final(session).wf(),
        r is Err ==> final(session)@ == old(session)@.push((Role::User, content@)),
        chatbot is Dummy ==> r is Ok && final(session)@ == old(session)@.push(
            (Role::User, content@),
        ).push((Role::Assistant, dummy_reply(old(session)@.push((Role::User, content@))))),
        chatbot is Dummy ==> texts_of(final(sink)@) == texts_of(old(sink)@).push(
            dummy_reply(old(session)@.push((Role::User, content@))),
        ),
{
    let ghost c = content@;
    session.push(Message::new(Role::User, content));
    assert(session@ == old(session)@.push((Role::User, c)));
    match handle_chat_message(session.messages().as_slice(), chatbot, sink) {
        Ok(reply) => {
            session.push(reply);
            Ok(())
        },
        Err(e) => Err(e),
    }
}

} // verus!
