use vstd::prelude::*;

use crate::chatbot::ChatbotError;
use crate::message::{Message, Role};

verus! {

/// The chunks concatenated in order.
pub open spec fn concat(texts: Seq<Seq<char>>) -> Seq<char>
    decreases texts.len(),
{
    if texts.len() == 0 {
        seq![]
    } else {
        concat(texts.drop_last()) + texts.last()
    }
}

/// The texts of the successful items, in order.
pub open spec fn ok_texts(items: Seq<Result<String, ChatbotError>>) -> Seq<Seq<char>>
    decreases items.len(),
{
    if items.len() == 0 {
        seq![]
    } else {
        match items.last() {
            Ok(t) => ok_texts(items.drop_last()).push(t@),
            Err(_) => ok_texts(items.drop_last()),
        }
    }
}

/// The texts of a list of strings.
pub open spec fn texts_of(v: Seq<String>) -> Seq<Seq<char>> {
    v.map_values(|s: String| s@)
}

pub open spec fn all_ok(items: Seq<Result<String, ChatbotError>>) -> bool {
    forall|i: int| 0 <= i < items.len() ==> items[i] is Ok
}

/// Collects a response text chunk by chunk, in the order the chunks arrive.
pub struct ResponseAccumulator {
    text: String,
}

impl View for ResponseAccumulator {
    type V = Seq<char>;

    closed spec fn view(&self) -> Seq<char> {
        self.text@
    }
}

impl ResponseAccumulator {
    pub fn new() -> (r: Self)
        ensures
            r@ == Seq::<char>::empty(),
    {
        ResponseAccumulator { text: String::new() }
    }

    /// Appends one chunk; the caller shows the same chunk to the user.
    pub fn push_chunk(&mut self, chunk: &str)
        ensures
            final(self)@ == old(self)@ + chunk@,
    {
        self.text.append(chunk);
    }

    /// The text collected so far.
    pub fn text(&self) -> (r: &String)
        ensures
            r@ == self@,
    {
        &self.text
    }

    /// The assistant message holding everything collected.
    pub fn finish(self) -> (r: Message)
        ensures
            r@ == (Role::Assistant, self@),
    {
        Message::new(Role::Assistant, self.text)
    }
}

/// Drains a response stream given as its items in order. Each chunk goes to
/// `sink` as it is taken; the first error ends the drain and is returned, and
/// the partial text is dropped. Without an error the chunks form one
/// assistant message.
pub fn collect_response(items: Vec<Result<String, ChatbotError>>, sink: &mut Vec<String>) -> (r:
    Result<Message, ChatbotError>)
    ensures
        all_ok(items@) <==> r is Ok,
        r is Ok ==> texts_of(final(sink)@) == texts_of(old(sink)@) + ok_texts(items@),
        r is Ok ==> r->Ok_0@ == (Role::Assistant, concat(ok_texts(items@))),
        r is Err ==> exists|k: int|
            0 <= k < items@.len() && items@[k] == Err::<String, ChatbotError>(r->Err_0) && all_ok(
                items@.subrange(0, k),
            ) && texts_of(final(sink)@) == texts_of(old(sink)@) + ok_texts(items@.subrange(0, k)),
{
    let ghost sink0 = texts_of(sink@);
    let mut acc = ResponseAccumulator::new();
    let mut i: usize = 0;
    assert(items@.subrange(0, 0) =~= Seq::<Result<String, ChatbotError>>::empty());
    assert(texts_of(sink@) =~= sink0 + ok_texts(items@.subrange(0, 0)));
    while i < items.len()
        invariant
            i <= items@.len(),
            sink0 == texts_of(old(sink)@),
            all_ok(items@.subrange(0, i as int)),
            acc@ == concat(ok_texts(items@.subrange(0, i as int))),
            texts_of(sink@) == sink0 + ok_texts(items@.subrange(0, i as int)),
        decreases items@.len() - i,
    {
        let ghost prev = items@.subrange(0, i as int);
        let ghost next = items@.subrange(0, i as int + 1);
        assert(next.drop_last() =~= prev);
        assert(next.last() == items@[i as int]);
        match &items[i] {
            Ok(t) => {
                let ghost before = texts_of(sink@);
                acc.push_chunk(t.as_str());
                let c = t.clone();
                assert(c@ == t@);
                sink.push(c);
                assert(ok_texts(next) == ok_texts(prev).push(t@));
                assert(texts_of(sink@) =~= before.push(t@));
                assert(texts_of(sink@) =~= sink0 + ok_texts(next));
                proof {
                    lemma_concat_push(ok_texts(prev), t@);
                }
                assert(all_ok(next)) by {
                    assert forall|j: int| 0 <= j < next.len() implies next[j] is Ok by {
                        if j < prev.len() {
                            assert(next[j] == prev[j]);
                        }
                    }
                }
            },
            Err(e) => {
                assert(items@[i as int] == Err::<String, ChatbotError>(*e));
                assert(!all_ok(items@));
                assert(0 <= i < items@.len() && items@[i as int] == Err::<String, ChatbotError>(*e)
                    && all_ok(items@.subrange(0, i as int)) && texts_of(sink@)
                    == texts_of(old(sink)@) + ok_texts(
                    items@.subrange(0, i as int),
                ));
                return Err(*e);
            },
        }
        i = i + 1;
    }
    assert(items@.subrange(0, items@.len() as int) =~= items@);
    Ok(acc.finish())
}

/// One more chunk extends the concatenation at its end.
pub proof fn lemma_concat_push(texts: Seq<Seq<char>>, t: Seq<char>)
    ensures
        concat(texts.push(t)) == concat(texts) + t,
{
    assert(texts.push(t).drop_last() =~= texts);
}

} // verus!
