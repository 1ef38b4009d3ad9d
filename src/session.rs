use vstd::prelude::*;

use crate::chatbot::{history, same_text};
use crate::message::{Message, Role};

verus! {

/// Why saving, loading, listing or deleting a stored session failed.
#[derive(PartialEq, Eq, Structural, Clone, Copy, Debug)]
pub enum SessionError {
    NotFound,
    Io,
    Malformed,
    UnknownRole,
    MisplacedSystem,
}

/// A transcript keeps at most one system message, and only in front.
pub open spec fn well_formed(h: Seq<(Role, Seq<char>)>) -> bool {
    forall|i: int| 0 < i < h.len() ==> h[i].0 != Role::System
}

/// The transcript after the system prompt is set to `p`.
pub open spec fn with_system(h: Seq<(Role, Seq<char>)>, p: Seq<char>) -> Seq<(Role, Seq<char>)> {
    seq![(Role::System, p)] + if h.len() > 0 && h[0].0 == Role::System {
        h.drop_first()
    } else {
        h
    }
}

/// The transcript after `m` is added: a system message takes the system slot.
pub open spec fn with_message(h: Seq<(Role, Seq<char>)>, m: (Role, Seq<char>)) -> Seq<
    (Role, Seq<char>),
> {
    if m.0 == Role::System {
        with_system(h, m.1)
    } else {
        h.push(m)
    }
}

/// The system prompt, if the transcript holds one.
pub open spec fn system_of(h: Seq<(Role, Seq<char>)>) -> Option<Seq<char>> {
    if h.len() > 0 && h[0].0 == Role::System {
        Some(h[0].1)
    } else {
        None
    }
}

/// The stored tag of a role.
pub open spec fn tag_of(r: Role) -> Seq<char> {
    match r {
        Role::System => "system"@,
        Role::User => "user"@,
        Role::Assistant => "assistant"@,
    }
}

/// The role a stored tag names; `model` is an older name of `assistant`.
pub open spec fn role_of_tag(t: Seq<char>) -> Option<Role> {
    if t == "system"@ {
        Some(Role::System)
    } else if t == "user"@ {
        Some(Role::User)
    } else if t == "assistant"@ || t == "model"@ {
        Some(Role::Assistant)
    } else {
        None
    }
}

pub fn role_tag(r: Role) -> (t: &'static str)
    ensures
        t@ == tag_of(r),
{
    match r {
        Role::System => "system",
        Role::User => "user",
        Role::Assistant => "assistant",
    }
}

pub fn parse_role_tag(t: &str) -> (r: Option<Role>)
    ensures
        r == role_of_tag(t@),
{
    if same_text(t, "system") {
        Some(Role::System)
    } else if same_text(t, "user") {
        Some(Role::User)
    } else if same_text(t, "assistant") || same_text(t, "model") {
        Some(Role::Assistant)
    } else {
        None
    }
}

/// One stored message: its role tag and its content.
#[derive(Debug)]
pub struct MessageRecord {
    pub role: String,
    pub content: String,
}

impl View for MessageRecord {
    type V = (Seq<char>, Seq<char>);

    open spec fn view(&self) -> (Seq<char>, Seq<char>) {
        (self.role@, self.content@)
    }
}

pub open spec fn records_view(recs: Seq<MessageRecord>) -> Seq<(Seq<char>, Seq<char>)> {
    recs.map_values(|r: MessageRecord| r@)
}

/// The stored form of a transcript.
pub open spec fn encode(h: Seq<(Role, Seq<char>)>) -> Seq<(Seq<char>, Seq<char>)> {
    h.map_values(|m: (Role, Seq<char>)| (tag_of(m.0), m.1))
}

pub open spec fn tags_valid(recs: Seq<(Seq<char>, Seq<char>)>) -> bool {
    forall|i: int| 0 <= i < recs.len() ==> role_of_tag(recs[i].0) is Some
}

pub open spec fn decode_roles(recs: Seq<(Seq<char>, Seq<char>)>) -> Seq<(Role, Seq<char>)> {
    recs.map_values(|r: (Seq<char>, Seq<char>)| (role_of_tag(r.0)->Some_0, r.1))
}

/// The transcript a stored form describes, or why it describes none.
pub open spec fn decode(recs: Seq<(Seq<char>, Seq<char>)>) -> Result<
    Seq<(Role, Seq<char>)>,
    SessionError,
> {
    if !tags_valid(recs) {
        Err(SessionError::UnknownRole)
    } else if !well_formed(decode_roles(recs)) {
        Err(SessionError::MisplacedSystem)
    } else {
        Ok(decode_roles(recs))
    }
}

/// The conversation transcript, in order.
pub struct Session {
    messages: Vec<Message>,
}

impl View for Session {
    type V = Seq<(Role, Seq<char>)>;

    closed spec fn view(&self) -> Seq<(Role, Seq<char>)> {
        history(self.messages@)
    }
}

impl Session {
    pub open spec fn wf(&self) -> bool {
        well_formed(self@)
    }

    pub fn new() -> (r: Self)
        ensures
            r@ == Seq::<(Role, Seq<char>)>::empty(),
            r.wf(),
    {
        let r = Session { messages: Vec::new() };
        assert(r@ =~= Seq::<(Role, Seq<char>)>::empty());
        r
    }

    /// The messages, in order.
    pub fn messages(&self) -> (r: &Vec<Message>)
        ensures
            history(r@) == self@,
    {
        &self.messages
    }

    /// Empties the transcript, the system prompt included.
    pub fn clear(&mut self)
        ensures
            final(self)@ == Seq::<(Role, Seq<char>)>::empty(),
            final(self).wf(),
    {
        self.messages.clear();
        assert(self@ =~= Seq::<(Role, Seq<char>)>::empty());
    }

    /// Makes `prompt` the only system message, in front of the rest.
    pub fn set_system_prompt(&mut self, prompt: String)
        requires
            old(self).wf(),
        ensures
            final(self)@ == with_system(old(self)@, prompt@),
            final(self).wf(),
    {
        let ghost h = self@;
        let ghost p = prompt@;
        let n = self.messages.len();
        let start: usize = if n > 0 && self.messages[0].role == Role::System {
            1
        } else {
            0
        };
        let ghost rest = h.subrange(start as int, h.len() as int);
        let mut out: Vec<Message> = Vec::new();
        out.push(Message::new(Role::System, prompt));
        assert(history(out@) =~= seq![(Role::System, p)]);
        let mut i: usize = start;
        while i < n
            invariant
                start <= i <= n,
                n == self.messages@.len(),
                h == history(self.messages@),
                history(out@) == seq![(Role::System, p)] + h.subrange(start as int, i as int),
            decreases n - i,
        {
            let m = self.messages[i].duplicate();
            let ghost before = history(out@);
            out.push(m);
            assert(history(out@) =~= before.push(h[i as int]));
            assert(h.subrange(start as int, i as int + 1) =~= h.subrange(start as int, i as int).push(
                h[i as int],
            ));
            i = i + 1;
        }
        self.messages = out;
        assert(self@ =~= with_system(h, p));
    }

    /// Appends a message; a system message replaces the system prompt instead.
    pub fn push(&mut self, m: Message)
        requires
            old(self).wf(),
        ensures
            final(self)@ == with_message(old(self)@, m@),
            final(self).wf(),
    {
        if m.role == Role::System {
            self.set_system_prompt(m.content);
        } else {
            let ghost h = self@;
            self.messages.push(m);
            assert(self@ =~= h.push(m@));
        }
    }

    /// The system prompt, if one is set.
    pub fn system_prompt(&self) -> (r: Option<&String>)
        ensures
            match r {
                Some(s) => system_of(self@) == Some(s@),
                None => system_of(self@) is None,
            },
    {
        if self.messages.len() > 0 && self.messages[0].role == Role::System {
            Some(&self.messages[0].content)
        } else {
            None
        }
    }

    /// The stored form of this transcript.
    pub fn to_records(&self) -> (r: Vec<MessageRecord>)
        ensures
            records_view(r@) == encode(self@),
    {
        let ghost h = self@;
        let mut out: Vec<MessageRecord> = Vec::new();
        let mut i: usize = 0;
        while i < self.messages.len()
            invariant
                i <= self.messages@.len(),
                h == history(self.messages@),
                records_view(out@) == encode(h.subrange(0, i as int)),
            decreases self.messages@.len() - i,
        {
            let m = &self.messages[i];
            let rec = MessageRecord {
                role: String::from_str(role_tag(m.role)),
                content: m.content.clone(),
            };
            let ghost before = records_view(out@);
            out.push(rec);
            assert(records_view(out@) =~= before.push(rec@));
            assert(encode(h.subrange(0, i as int + 1)) =~= encode(h.subrange(0, i as int)).push(
                (tag_of(h[i as int].0), h[i as int].1),
            ));
            i = i + 1;
        }
        assert(h.subrange(0, h.len() as int) =~= h);
        out
    }

    /// Rebuilds a transcript from its stored form.
    pub fn from_records(records: &Vec<MessageRecord>) -> (r: Result<Session, SessionError>)
        ensures
            match decode(records_view(records@)) {
                Ok(h) => r is Ok && r->Ok_0@ == h && r->Ok_0.wf(),
                Err(e) => r == Err::<Session, SessionError>(e),
            },
    {
        let ghost recs = records_view(records@);
        let mut out: Vec<Message> = Vec::new();
        let mut i: usize = 0;
        while i < records.len()
            invariant
                i <= records@.len(),
                recs == records_view(records@),
                tags_valid(recs.subrange(0, i as int)),
                history(out@) == decode_roles(recs.subrange(0, i as int)),
            decreases records@.len() - i,
        {
            let rec = &records[i];
            match parse_role_tag(rec.role.as_str()) {
                Some(role) => {
                    let m = Message::new(role, rec.content.clone());
                    let ghost before = history(out@);
                    out.push(m);
                    assert(history(out@) =~= before.push(m@));
                    let ghost next = recs.subrange(0, i as int + 1);
                    assert(decode_roles(next) =~= decode_roles(recs.subrange(0, i as int)).push(
                        m@,
                    ));
                    assert(tags_valid(next)) by {
                        assert forall|j: int| 0 <= j < next.len() implies role_of_tag(
                            next[j].0,
                        ) is Some by {
                            if j < i {
                                assert(next[j] == recs.subrange(0, i as int)[j]);
                            }
                        }
                    }
                },
                None => {
                    assert(recs[i as int].0 == rec.role@);
                    assert(!tags_valid(recs));
                    return Err(SessionError::UnknownRole);
                },
            }
            i = i + 1;
        }
        assert(recs.subrange(0, recs.len() as int) =~= recs);
        assert(tags_valid(recs));
        let ghost h = decode_roles(recs);
        let mut j: usize = 1;
        while j < out.len()
            invariant
                1 <= j,
                history(out@) == h,
                h == decode_roles(recs),
                recs == records_view(records@),
                tags_valid(recs),
                forall|k: int| 0 < k < j && k < h.len() ==> h[k].0 != Role::System,
            decreases out@.len() - j,
        {
            if out[j].role == Role::System {
                assert(h[j as int].0 == Role::System);
                assert(!well_formed(h));
                return Err(SessionError::MisplacedSystem);
            }
            j = j + 1;
        }
        let s = Session { messages: out };
        assert(s.wf());
        Ok(s)
    }
}

/// Storing a well-formed transcript and reading it back gives the same
/// transcript, message for message.
pub proof fn lemma_records_round_trip(h: Seq<(Role, Seq<char>)>)
    requires
        well_formed(h),
    ensures
        decode(encode(h)) == Ok::<Seq<(Role, Seq<char>)>, SessionError>(h),
{
    reveal_strlit("system");
    reveal_strlit("user");
    reveal_strlit("assistant");
    reveal_strlit("model");
    let e = encode(h);
    assert forall|r: Role| role_of_tag(#[trigger] tag_of(r)) == Some(r) by {
        reveal_strlit("system");
        reveal_strlit("user");
        reveal_strlit("assistant");
        reveal_strlit("model");
        match r {
            Role::System => {},
            Role::User => {
                assert("user"@.len() == 4);
                assert("system"@.len() == 6);
            },
            Role::Assistant => {
                assert("assistant"@.len() == 9);
                assert("system"@.len() == 6);
                assert("user"@.len() == 4);
            },
        }
    }
    assert(tags_valid(e));
    assert(decode_roles(e) =~= h);
}

/// Setting the same system prompt twice leaves one system message, in front,
/// holding that prompt: the second time changes nothing.
pub proof fn lemma_system_prompt_idempotent(h: Seq<(Role, Seq<char>)>, p: Seq<char>)
    requires
        well_formed(h),
    ensures
        with_system(with_system(h, p), p) == with_system(h, p),
        with_system(with_system(h, p), p)[0] == (Role::System, p),
        well_formed(with_system(with_system(h, p), p)),
{
    let once = with_system(h, p);
    assert(once.drop_first() =~= if h.len() > 0 && h[0].0 == Role::System {
        h.drop_first()
    } else {
        h
    });
    assert(with_system(once, p) =~= once);
}

} // verus!
