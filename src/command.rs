use vstd::prelude::*;

use crate::chatbot::{created_backend, create_chatbot, same_text, Backend};
use crate::message::Role;
use crate::session::{system_of, well_formed, with_system, Session};
use crate::stream::texts_of;

verus! {

/// What `str::split_whitespace` yields for a text, each piece as characters.
pub uninterp spec fn whitespace_tokens(s: Seq<char>) -> Seq<Seq<char>>;

/// Relies on `str::split_whitespace`: the pieces of `line` between runs of
/// whitespace, in order, without the whitespace.
#[verifier::external_body]
pub(crate) fn split_tokens(line: &str) -> (r: Vec<String>)
    ensures
        texts_of(r@) == whitespace_tokens(line@),
{
    line.split_whitespace().map(|t| t.to_string()).collect()
}

/// The command that a line starting with `/` selects.
#[derive(PartialEq, Eq, Structural, Clone, Copy, Debug)]
pub enum CommandKind {
    Empty,
    Clear,
    System,
    Chatbot,
    ListChatbots,
    Model,
    ListModels,
    Info,
    Help,
    Save,
    Load,
    Sessions,
    Delete,
    Quit,
    Invalid,
}

/// The command named by a first token, long form or alias.
pub open spec fn kind_of(t: Seq<char>) -> CommandKind {
    if t == "/clear"@ || t == "/c"@ {
        CommandKind::Clear
    } else if t == "/system"@ || t == "/sys"@ {
        CommandKind::System
    } else if t == "/chatbot"@ || t == "/cb"@ {
        CommandKind::Chatbot
    } else if t == "/list_chatbots"@ || t == "/lc"@ {
        CommandKind::ListChatbots
    } else if t == "/model"@ || t == "/m"@ {
        CommandKind::Model
    } else if t == "/list_models"@ || t == "/lm"@ {
        CommandKind::ListModels
    } else if t == "/info"@ || t == "/i"@ {
        CommandKind::Info
    } else if t == "/help"@ || t == "/h"@ {
        CommandKind::Help
    } else if t == "/save"@ || t == "/s"@ {
        CommandKind::Save
    } else if t == "/load"@ || t == "/l"@ {
        CommandKind::Load
    } else if t == "/sessions"@ || t == "/se"@ {
        CommandKind::Sessions
    } else if t == "/delete"@ || t == "/d"@ {
        CommandKind::Delete
    } else if t == "/quit"@ || t == "/q"@ {
        CommandKind::Quit
    } else {
        CommandKind::Invalid
    }
}

pub fn command_kind(t: &str) -> (r: CommandKind)
    ensures
        r == kind_of(t@),
{
    if same_text(t, "/clear") || same_text(t, "/c") {
        CommandKind::Clear
    } else if same_text(t, "/system") || same_text(t, "/sys") {
        CommandKind::System
    } else if same_text(t, "/chatbot") || same_text(t, "/cb") {
        CommandKind::Chatbot
    } else if same_text(t, "/list_chatbots") || same_text(t, "/lc") {
        CommandKind::ListChatbots
    } else if same_text(t, "/model") || same_text(t, "/m") {
        CommandKind::Model
    } else if same_text(t, "/list_models") || same_text(t, "/lm") {
        CommandKind::ListModels
    } else if same_text(t, "/info") || same_text(t, "/i") {
        CommandKind::Info
    } else if same_text(t, "/help") || same_text(t, "/h") {
        CommandKind::Help
    } else if same_text(t, "/save") || same_text(t, "/s") {
        CommandKind::Save
    } else if same_text(t, "/load") || same_text(t, "/l") {
        CommandKind::Load
    } else if same_text(t, "/sessions") || same_text(t, "/se") {
        CommandKind::Sessions
    } else if same_text(t, "/delete") || same_text(t, "/d") {
        CommandKind::Delete
    } else if same_text(t, "/quit") || same_text(t, "/q") {
        CommandKind::Quit
    } else {
        CommandKind::Invalid
    }
}

/// Commands whose argument is the single token after the command.
pub open spec fn takes_word(k: CommandKind) -> bool {
    k == CommandKind::Chatbot || k == CommandKind::Model || k == CommandKind::Save || k
        == CommandKind::Load || k == CommandKind::Delete
}

/// The words joined by single spaces.
pub open spec fn join(words: Seq<Seq<char>>) -> Seq<char>
    decreases words.len(),
{
    if words.len() == 0 {
        seq![]
    } else if words.len() == 1 {
        words[0]
    } else {
        join(words.drop_last()) + " "@ + words.last()
    }
}

/// A command and its argument, if it takes one and the line gave it.
pub struct ParsedCommand {
    pub kind: CommandKind,
    pub arg: Option<String>,
}

impl View for ParsedCommand {
    type V = (CommandKind, Option<Seq<char>>);

    open spec fn view(&self) -> (CommandKind, Option<Seq<char>>) {
        (
            self.kind,
            match self.arg {
                Some(a) => Some(a@),
                None => None,
            },
        )
    }
}

/// The command that a line's tokens describe.
pub open spec fn parse_spec(parts: Seq<Seq<char>>) -> (CommandKind, Option<Seq<char>>) {
    if parts.len() == 0 {
        (CommandKind::Empty, None)
    } else {
        let k = kind_of(parts[0]);
        if parts.len() > 1 && k == CommandKind::System {
            (k, Some(join(parts.subrange(1, parts.len() as int))))
        } else if parts.len() > 1 && takes_word(k) {
            (k, Some(parts[1]))
        } else {
            (k, None)
        }
    }
}

/// The tokens from `from` on, joined by single spaces.
fn join_from(parts: &Vec<String>, from: usize) -> (r: String)
    requires
        from < parts@.len(),
    ensures
        r@ == join(texts_of(parts@).subrange(from as int, parts@.len() as int)),
{
    let ghost t = texts_of(parts@);
    let n = parts.len();
    let mut s = parts[from].clone();
    let mut i: usize = from + 1;
    assert(t.subrange(from as int, i as int).len() == 1);
    while i < parts.len()
        invariant
            from < i <= parts@.len(),
            t == texts_of(parts@),
            s@ == join(t.subrange(from as int, i as int)),
        decreases parts@.len() - i,
    {
        s.append(" ");
        s.append(parts[i].as_str());
        assert(t.subrange(from as int, i as int + 1).drop_last() =~= t.subrange(from as int, i as int));
        i = i + 1;
    }
    s
}

pub fn parse_tokens(parts: &Vec<String>) -> (r: ParsedCommand)
    ensures
        r@ == parse_spec(texts_of(parts@)),
{
    if parts.len() == 0 {
        return ParsedCommand { kind: CommandKind::Empty, arg: None };
    }
    let kind = command_kind(parts[0].as_str());
    let arg = if parts.len() > 1 && kind == CommandKind::System {
        Some(join_from(parts, 1))
    } else if parts.len() > 1 && (kind == CommandKind::Chatbot || kind == CommandKind::Model || kind
        == CommandKind::Save || kind == CommandKind::Load || kind == CommandKind::Delete) {
        Some(parts[1].clone())
    } else {
        None
    };
    ParsedCommand { kind, arg }
}

/// Reads a command line: its first whitespace-separated token selects the
/// command, the rest gives the argument.
pub fn parse_command(line: &str) -> (r: ParsedCommand)
    ensures
        r@ == parse_spec(whitespace_tokens(line@)),
{
    let parts = split_tokens(line);
    parse_tokens(&parts)
}

} // verus!

verus! {

/// A line for the user: a confirmation, or an error when `is_error` holds.
#[derive(Debug)]
pub struct Notice {
    pub is_error: bool,
    pub text: String,
}

/// Why a command did nothing.
#[derive(PartialEq, Eq, Structural, Clone, Copy, Debug)]
pub enum CommandError {
    NoCommand,
    MissingArgument,
    UnknownChatbot,
    InvalidModel,
    InvalidCommand,
}

/// What is left for the caller to do once a command is handled.
#[derive(Debug)]
pub enum Action {
    Continue,
    Quit,
    Save(String),
    Load(String),
    Delete(String),
    ListSessions,
}

/// What handling one command gives back.
#[derive(Debug)]
pub struct CommandOutcome {
    pub notices: Vec<Notice>,
    pub action: Action,
    pub error: Option<CommandError>,
}

/// The transcript after a command.
pub open spec fn session_after(c: (CommandKind, Option<Seq<char>>), h: Seq<(Role, Seq<char>)>) -> Seq<
    (Role, Seq<char>),
> {
    if c.0 == CommandKind::Clear {
        seq![]
    } else if c.0 == CommandKind::System && c.1 is Some {
        with_system(h, c.1->Some_0)
    } else {
        h
    }
}

/// The active backend after a command.
pub open spec fn backend_after(c: (CommandKind, Option<Seq<char>>), b: Backend) -> Backend {
    if c.0 == CommandKind::Chatbot && c.1 is Some && created_backend(c.1->Some_0) is Ok {
        created_backend(c.1->Some_0)->Ok_0
    } else if c.0 == CommandKind::Model && c.1 is Some && b.models_spec().contains(c.1->Some_0) {
        b.with_model(c.1->Some_0)
    } else {
        b
    }
}

/// The failure a command reports, if any.
pub open spec fn error_after(c: (CommandKind, Option<Seq<char>>), b: Backend) -> Option<CommandError> {
    if c.0 == CommandKind::Empty {
        Some(CommandError::NoCommand)
    } else if c.0 == CommandKind::Invalid {
        Some(CommandError::InvalidCommand)
    } else if (c.0 == CommandKind::System || takes_word(c.0)) && c.1 is None {
        Some(CommandError::MissingArgument)
    } else if c.0 == CommandKind::Chatbot && created_backend(c.1->Some_0) is Err {
        Some(CommandError::UnknownChatbot)
    } else if c.0 == CommandKind::Model && !b.models_spec().contains(c.1->Some_0) {
        Some(CommandError::InvalidModel)
    } else {
        None
    }
}

/// Whether `a` is the action that follows a command that reported no error.
pub open spec fn action_after(c: (CommandKind, Option<Seq<char>>), a: Action) -> bool {
    match a {
        Action::Quit => c.0 == CommandKind::Quit,
        Action::Save(n) => c.0 == CommandKind::Save && c.1 == Some(n@),
        Action::Load(n) => c.0 == CommandKind::Load && c.1 == Some(n@),
        Action::Delete(n) => c.0 == CommandKind::Delete && c.1 == Some(n@),
        Action::ListSessions => c.0 == CommandKind::Sessions,
        Action::Continue => c.0 != CommandKind::Quit && c.0 != CommandKind::Sessions && !(
        takes_word(c.0) && c.0 != CommandKind::Chatbot && c.0 != CommandKind::Model && c.1 is Some),
    }
}

pub open spec fn notice_texts(n: Seq<Notice>) -> Seq<(bool, Seq<char>)> {
    n.map_values(|x: Notice| (x.is_error, x.text@))
}

/// The error line a failed command shows.
pub open spec fn error_line(k: CommandKind, e: CommandError) -> Seq<char> {
    match e {
        CommandError::NoCommand => "No command specified."@,
        CommandError::InvalidCommand => "Invalid command. Use /help or /h for a list of commands."@,
        CommandError::UnknownChatbot => "Invalid chatbot."@,
        CommandError::InvalidModel => "Invalid model."@,
        CommandError::MissingArgument => if k == CommandKind::System {
            "System prompt is required. Usage: /system <prompt>"@
        } else if k == CommandKind::Chatbot {
            "Chatbot is required. Usage: /chatbot <chatbot>"@
        } else if k == CommandKind::Model {
            "Model is required. Usage: /model <model>"@
        } else if k == CommandKind::Save {
            "Filename is required. Usage: /save <filename>"@
        } else if k == CommandKind::Load {
            "Filename is required. Usage: /load <filename>"@
        } else {
            "Filename is required. Usage: /delete <filename>"@
        },
    }
}

/// The lines `/list_models` shows.
pub open spec fn model_lines(models: Seq<Seq<char>>) -> Seq<(bool, Seq<char>)> {
    seq![(false, "Available models:"@)] + models.map_values(|m: Seq<char>| (false, "\t"@ + m))
}

/// The lines a command shows, for every command but `/help`.
pub open spec fn notices_after(
    c: (CommandKind, Option<Seq<char>>),
    b: Backend,
    h: Seq<(Role, Seq<char>)>,
) -> Seq<(bool, Seq<char>)> {
    match error_after(c, b) {
        Some(e) => seq![(true, error_line(c.0, e))],
        None => match c.0 {
            CommandKind::Clear => seq![(false, "Context cleared."@)],
            CommandKind::System => seq![(false, "System prompt set."@)],
            CommandKind::Chatbot => seq![
                (false, "Chatbot changed to "@ + backend_after(c, b).name_spec()),
            ],
            CommandKind::ListChatbots => seq![
                (false, "Available chatbots:"@),
                (false, "\tdummy - Dummy"@),
            ],
            CommandKind::Model => seq![
                (false, "Chatbot model changed to "@ + backend_after(c, b).model_spec()),
            ],
            CommandKind::ListModels => model_lines(b.models_spec()),
            CommandKind::Info => info_lines(b, h),
            CommandKind::Quit => seq![(false, "Quitting..."@)],
            _ => seq![],
        },
    }
}

/// The lines `/info` shows.
pub open spec fn info_lines(b: Backend, h: Seq<(Role, Seq<char>)>) -> Seq<(bool, Seq<char>)> {
    seq![(false, "Current chatbot: "@ + b.name_spec()), (false, "Current model: "@ + b.model_spec())]
        + match system_of(h) {
        Some(p) => seq![(false, "System prompt: "@ + p)],
        None => seq![],
    }
}

fn notice(is_error: bool, text: &str) -> (r: Notice)
    ensures
        r.is_error == is_error,
        r.text@ == text@,
{
    Notice { is_error, text: String::from_str(text) }
}

fn notice_with(prefix: &str, rest: &str) -> (r: Notice)
    ensures
        !r.is_error,
        r.text@ == prefix@ + rest@,
{
    let mut text = String::from_str(prefix);
    text.append(rest);
    Notice { is_error: false, text }
}

fn failed(e: CommandError, text: &str) -> (r: CommandOutcome)
    ensures
        r.notices@[0].text@ == text@,
        r.error == Some(e),
        r.action is Continue,
        notice_texts(r.notices@) == seq![(true, text@)],
        r.notices@.len() == 1,
        r.notices@[0].is_error,
{
    let mut notices: Vec<Notice> = Vec::new();
    notices.push(notice(true, text));
    assert(notice_texts(notices@) =~= seq![(true, text@)]);
    CommandOutcome { notices, action: Action::Continue, error: Some(e) }
}

fn done(notices: Vec<Notice>, action: Action) -> (r: CommandOutcome)
    ensures
        r.error is None,
        r.notices == notices,
        r.action == action,
{
    CommandOutcome { notices, action, error: None }
}

fn help_lines() -> (r: Vec<Notice>)
    ensures
        forall|i: int| 0 <= i < r@.len() ==> !r@[i].is_error,
{
    let mut v: Vec<Notice> = Vec::new();
    v.push(notice(false, "Available commands:"));
    v.push(notice(false, "\t/clear or /c - Clear the conversation history (including system prompt)"));
    v.push(notice(false, "\t/system <prompt> or /sys <prompt> - Set the system prompt"));
    v.push(notice(false, "\t/chatbot <chatbot> or /cb <chatbot> - Change the chatbot"));
    v.push(notice(false, "\t/list_chatbots or /lc - List all available chatbots"));
    v.push(notice(false, "\t/model <model> or /m <model> - Change the chatbot model"));
    v.push(notice(false, "\t/list_models or /lm - List all available models for current chatbot"));
    v.push(notice(false, "\t/info or /i - Display current chatbot and model information"));
    v.push(notice(false, "\t/save <filename> or /s <filename> - Save the session"));
    v.push(notice(false, "\t/load <filename> or /l <filename> - Load a saved session"));
    v.push(notice(false, "\t/delete <filename> or /d <filename> - Delete a session"));
    v.push(notice(false, "\t/sessions or /se - List all saved sessions"));
    v.push(notice(false, "\t/help or /h - List all available commands"));
    v.push(notice(false, "\t/quit or /q - Exit the application"));
    v
}

/// Carries out one parsed command on the transcript and the active backend.
/// Each command changes at most one of them; a failed command changes
/// neither and reports one error line. Storage work is handed back as the
/// outcome's action.
pub fn execute(cmd: &ParsedCommand, session: &mut Session, chatbot: &mut Backend) -> (r:
    CommandOutcome)
    requires
        old(session).wf(),
    ensures
        final(session).wf(),
        final(session)@ == session_after(cmd@, old(session)@),
        *final(chatbot) == backend_after(cmd@, *old(chatbot)),
        r.error == error_after(cmd@, *old(chatbot)),
        r.error is Some ==> r.action is Continue && notice_texts(r.notices@).len() == 1
            && r.notices@[0].is_error,
        r.error is None ==> action_after(cmd@, r.action),
        r.error is None ==> forall|i: int| 0 <= i < r.notices@.len() ==> !r.notices@[i].is_error,
        cmd.kind != CommandKind::Help ==> notice_texts(r.notices@) == notices_after(
            cmd@,
            *old(chatbot),
            old(session)@,
        ),
{
    let mut notices: Vec<Notice> = Vec::new();
    match cmd.kind {
        CommandKind::Empty => failed(CommandError::NoCommand, "No command specified."),
        CommandKind::Invalid => failed(
            CommandError::InvalidCommand,
            "Invalid command. Use /help or /h for a list of commands.",
        ),
        CommandKind::Clear => {
            session.clear();
            notices.push(notice(false, "Context cleared."));
            assert(notice_texts(notices@) =~= seq![(false, "Context cleared."@)]);
            done(notices, Action::Continue)
        },
        CommandKind::System => match &cmd.arg {
            Some(p) => {
                session.set_system_prompt(p.clone());
                notices.push(notice(false, "System prompt set."));
                assert(notice_texts(notices@) =~= seq![(false, "System prompt set."@)]);
                done(notices, Action::Continue)
            },
            None => failed(
                CommandError::MissingArgument,
                "System prompt is required. Usage: /system <prompt>",
            ),
        },
        CommandKind::Chatbot => match &cmd.arg {
            Some(name) => match create_chatbot(name.as_str(), String::new(), None) {
                Ok(b) => {
                    *chatbot = b;
                    let n = notice_with("Chatbot changed to ", chatbot.name());
                    notices.push(n);
                    assert(notice_texts(notices@) =~= seq![(false, n.text@)]);
                    done(notices, Action::Continue)
                },
                Err(_) => failed(CommandError::UnknownChatbot, "Invalid chatbot."),
            },
            None => failed(
                CommandError::MissingArgument,
                "Chatbot is required. Usage: /chatbot <chatbot>",
            ),
        },
        CommandKind::ListChatbots => {
            notices.push(notice(false, "Available chatbots:"));
            notices.push(notice(false, "\tdummy - Dummy"));
            assert(notice_texts(notices@) =~= seq![
                (false, "Available chatbots:"@),
                (false, "\tdummy - Dummy"@),
            ]);
            done(notices, Action::Continue)
        },
        CommandKind::Model => match &cmd.arg {
            Some(m) => match chatbot.change_model(m.clone()) {
                Ok(()) => {
                    let n = notice_with("Chatbot model changed to ", chatbot.model());
                    notices.push(n);
                    assert(notice_texts(notices@) =~= seq![(false, n.text@)]);
                    done(notices, Action::Continue)
                },
                Err(_) => failed(CommandError::InvalidModel, "Invalid model."),
            },
            None => failed(CommandError::MissingArgument, "Model is required. Usage: /model <model>"),
        },
        CommandKind::ListModels => {
            notices.push(notice(false, "Available models:"));
            let models = chatbot.available_models();
            let ghost ms = texts_of(models@);
            assert(notice_texts(notices@) =~= model_lines(ms.subrange(0, 0)));
            let mut i: usize = 0;
            while i < models.len()
                invariant
                    i <= models@.len(),
                    ms == texts_of(models@),
                    forall|j: int| 0 <= j < notices@.len() ==> !notices@[j].is_error,
                    notice_texts(notices@) == model_lines(ms.subrange(0, i as int)),
                decreases models@.len() - i,
            {
                let ghost before = notice_texts(notices@);
                let n = notice_with("\t", models[i].as_str());
                notices.push(n);
                assert(notice_texts(notices@) =~= before.push((false, "\t"@ + ms[i as int])));
                assert(model_lines(ms.subrange(0, i as int + 1)) =~= model_lines(
                    ms.subrange(0, i as int),
                ).push((false, "\t"@ + ms[i as int])));
                i = i + 1;
            }
            assert(ms.subrange(0, ms.len() as int) =~= ms);
            done(notices, Action::Continue)
        },
        CommandKind::Info => {
            notices.push(notice_with("Current chatbot: ", chatbot.name()));
            notices.push(notice_with("Current model: ", chatbot.model()));
            match session.system_prompt() {
                Some(p) => {
                    notices.push(notice_with("System prompt: ", p.as_str()));
                },
                None => {},
            }
            assert(notice_texts(notices@) =~= info_lines(*chatbot, session@));
            done(notices, Action::Continue)
        },
        CommandKind::Help => done(help_lines(), Action::Continue),
        CommandKind::Save => match &cmd.arg {
            Some(n) => done(notices, Action::Save(n.clone())),
            None => failed(
                CommandError::MissingArgument,
                "Filename is required. Usage: /save <filename>",
            ),
        },
        CommandKind::Load => match &cmd.arg {
            Some(n) => done(notices, Action::Load(n.clone())),
            None => failed(
                CommandError::MissingArgument,
                "Filename is required. Usage: /load <filename>",
            ),
        },
        CommandKind::Delete => match &cmd.arg {
            Some(n) => done(notices, Action::Delete(n.clone())),
            None => failed(
                CommandError::MissingArgument,
                "Filename is required. Usage: /delete <filename>",
            ),
        },
        CommandKind::Sessions => done(notices, Action::ListSessions),
        CommandKind::Quit => {
            notices.push(notice(false, "Quitting..."));
            assert(notice_texts(notices@) =~= seq![(false, "Quitting..."@)]);
            done(notices, Action::Quit)
        },
    }
}

/// Reads and carries out one command line.
pub fn handle_command(line: &str, session: &mut Session, chatbot: &mut Backend) -> (r:
    CommandOutcome)
    requires
        old(session).wf(),
    ensures
        final(session).wf(),
        final(session)@ == session_after(parse_spec(whitespace_tokens(line@)), old(session)@),
        *final(chatbot) == backend_after(parse_spec(whitespace_tokens(line@)), *old(chatbot)),
        r.error == error_after(parse_spec(whitespace_tokens(line@)), *old(chatbot)),
        r.error is None ==> action_after(parse_spec(whitespace_tokens(line@)), r.action),
        parse_spec(whitespace_tokens(line@)).0 != CommandKind::Help ==> notice_texts(r.notices@)
            == notices_after(parse_spec(whitespace_tokens(line@)), *old(chatbot), old(session)@),
{
    let cmd = parse_command(line);
    execute(&cmd, session, chatbot)
}

} // verus!

verus! {

/// Clearing empties any transcript, a lone system message included.
pub proof fn lemma_clear_empties(h: Seq<(Role, Seq<char>)>, arg: Option<Seq<char>>)
    ensures
        session_after((CommandKind::Clear, arg), h) == Seq::<(Role, Seq<char>)>::empty(),
{
}

/// Issuing `/system p` twice in a row leaves exactly one system message,
/// first, holding `p`.
pub proof fn lemma_system_twice(h: Seq<(Role, Seq<char>)>, p: Seq<char>)
    requires
        well_formed(h),
    ensures
        ({
            let c = (CommandKind::System, Some(p));
            let twice = session_after(c, session_after(c, h));
            &&& twice == session_after(c, h)
            &&& twice.len() > 0
            &&& twice[0] == (Role::System, p)
            &&& forall|i: int| 0 < i < twice.len() ==> twice[i].0 != Role::System
        }),
{
    crate::session::lemma_system_prompt_idempotent(h, p);
}

/// Switching to `dummy` and then to an unknown name keeps the dummy backend
/// and reports the unknown name.
pub proof fn lemma_failed_switch_keeps_backend(b: Backend, name: Seq<char>)
    requires
        name != "dummy"@,
    ensures
        ({
            let first = backend_after((CommandKind::Chatbot, Some("dummy"@)), b);
            let second = (CommandKind::Chatbot, Some(name));
            &&& first is Dummy
            &&& backend_after(second, first) == first
            &&& error_after(second, first) == Some(CommandError::UnknownChatbot)
        }),
{
}

} // verus!
