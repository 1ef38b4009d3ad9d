use llmcli::chat::{chat_turn, classify_input, handle_chat_message, InputKind};
use llmcli::chatbot::{create_chatbot, Backend, ChatbotCreationError, ChatbotError, DummyChatbot};
use llmcli::command::{
    execute, handle_command, parse_command, parse_tokens, Action, CommandError, CommandKind,
};
use llmcli::message::{Message, Role};
use llmcli::session::{parse_role_tag, role_tag, MessageRecord, Session, SessionError};
use llmcli::stream::{collect_response, ResponseAccumulator};

fn dummy() -> Backend {
    create_chatbot("dummy", String::new(), None).unwrap()
}

fn msg(role: Role, text: &str) -> Message {
    Message::new(role, text.to_string())
}

fn transcript(s: &Session) -> Vec<(Role, String)> {
    s.messages().iter().map(|m| (m.role(), m.content().clone())).collect()
}

fn session_of(msgs: Vec<Message>) -> Session {
    let mut s = Session::new();
    for m in msgs {
        s.push(m);
    }
    s
}

#[test]
fn dummy_echoes_last_user_message() {
    let hist = vec![msg(Role::System, "be nice"), msg(Role::User, "hi there")];
    let chunks = DummyChatbot.send_message(&hist).unwrap();
    assert_eq!(chunks, vec!["Dummy response to: \"hi there\".".to_string()]);
}

#[test]
fn dummy_answers_non_user_last_message() {
    let hist = vec![msg(Role::User, "hi"), msg(Role::Assistant, "hello")];
    let chunks = DummyChatbot.send_message(&hist).unwrap();
    assert_eq!(chunks, vec!["Dummy response.".to_string()]);
    let hist = vec![msg(Role::System, "sys")];
    assert_eq!(DummyChatbot::reply_text(&hist), "Dummy response.");
}

#[test]
fn dummy_answers_empty_history() {
    let chunks = DummyChatbot.send_message(&[]).unwrap();
    assert_eq!(chunks, vec!["Dummy response to empty conversation.".to_string()]);
}

#[test]
fn dummy_identity_and_models() {
    let mut b = dummy();
    assert_eq!(b.name(), "Dummy");
    assert_eq!(b.model(), "1");
    assert_eq!(b.available_models(), vec!["1".to_string()]);
    assert!(b.change_model("1".to_string()).is_ok());
    assert!(b.change_model("gpt".to_string()).is_err());
    assert_eq!(b.model(), "1");
}

#[test]
fn factory_rejects_unknown_names() {
    assert_eq!(
        create_chatbot("nonsense", String::new(), None),
        Err(ChatbotCreationError::UnknownChatbot)
    );
    assert_eq!(create_chatbot("Dummy", String::new(), None), Err(ChatbotCreationError::UnknownChatbot));
}

#[test]
fn records_round_trip() {
    let s = session_of(vec![
        msg(Role::System, "sys"),
        msg(Role::User, "a \"quoted\"\nline"),
        msg(Role::Assistant, ""),
    ]);
    let recs = s.to_records();
    assert_eq!(recs[0].role, "system");
    assert_eq!(recs[1].role, "user");
    assert_eq!(recs[2].role, "assistant");
    let back = Session::from_records(&recs).unwrap();
    assert_eq!(transcript(&back), transcript(&s));
}

#[test]
fn empty_records_round_trip() {
    let s = Session::new();
    let recs = s.to_records();
    assert!(recs.is_empty());
    assert!(Session::from_records(&recs).unwrap().messages().is_empty());
}

#[test]
fn records_accept_model_alias() {
    let recs = vec![MessageRecord { role: "model".to_string(), content: "x".to_string() }];
    let s = Session::from_records(&recs).unwrap();
    assert_eq!(transcript(&s), vec![(Role::Assistant, "x".to_string())]);
    assert_eq!(parse_role_tag("model"), Some(Role::Assistant));
    assert_eq!(role_tag(Role::Assistant), "assistant");
}

#[test]
fn records_reject_unknown_role() {
    let recs = vec![MessageRecord { role: "robot".to_string(), content: "x".to_string() }];
    assert_eq!(Session::from_records(&recs).err(), Some(SessionError::UnknownRole));
}

#[test]
fn records_reject_misplaced_system() {
    let recs = vec![
        MessageRecord { role: "user".to_string(), content: "x".to_string() },
        MessageRecord { role: "system".to_string(), content: "y".to_string() },
    ];
    assert_eq!(Session::from_records(&recs).err(), Some(SessionError::MisplacedSystem));
}

#[test]
fn system_command_twice_keeps_one() {
    let mut s = session_of(vec![msg(Role::User, "u")]);
    let mut b = dummy();
    handle_command("/system be brief", &mut s, &mut b);
    let out = handle_command("/sys be brief", &mut s, &mut b);
    assert_eq!(out.error, None);
    assert_eq!(
        transcript(&s),
        vec![(Role::System, "be brief".to_string()), (Role::User, "u".to_string())]
    );
}

#[test]
fn system_command_needs_argument() {
    let mut s = Session::new();
    let mut b = dummy();
    let out = handle_command("/system", &mut s, &mut b);
    assert_eq!(out.error, Some(CommandError::MissingArgument));
    assert!(out.notices[0].is_error);
    assert!(s.messages().is_empty());
}

#[test]
fn clear_empties_transcript() {
    let mut b = dummy();
    let mut s = session_of(vec![msg(Role::System, "only")]);
    handle_command("/clear", &mut s, &mut b);
    assert!(s.messages().is_empty());
    let mut s = session_of(vec![msg(Role::System, "p"), msg(Role::User, "u")]);
    handle_command("/c", &mut s, &mut b);
    assert!(s.messages().is_empty());
}

#[test]
fn failed_switch_keeps_dummy() {
    let mut s = Session::new();
    let mut b = dummy();
    let out = handle_command("/chatbot dummy", &mut s, &mut b);
    assert_eq!(out.error, None);
    assert_eq!(out.notices[0].text, "Chatbot changed to Dummy");
    let out = handle_command("/chatbot nosuch", &mut s, &mut b);
    assert_eq!(out.error, Some(CommandError::UnknownChatbot));
    assert_eq!(b, Backend::Dummy(DummyChatbot));
}

#[test]
fn end_to_end_turn() {
    let mut s = Session::new();
    let mut b = dummy();
    handle_command("/system You are terse.", &mut s, &mut b);
    let mut sink = Vec::new();
    chat_turn(&mut s, &b, "hello".to_string(), &mut sink).unwrap();
    assert_eq!(
        transcript(&s),
        vec![
            (Role::System, "You are terse.".to_string()),
            (Role::User, "hello".to_string()),
            (Role::Assistant, "Dummy response to: \"hello\".".to_string()),
        ]
    );
    assert_eq!(sink, vec!["Dummy response to: \"hello\".".to_string()]);
}

#[test]
fn chat_message_leaves_history_alone() {
    let hist = vec![msg(Role::User, "q")];
    let mut sink = Vec::new();
    let m = handle_chat_message(&hist, &dummy(), &mut sink).unwrap();
    assert_eq!(m.role(), Role::Assistant);
    assert_eq!(m.content(), "Dummy response to: \"q\".");
    assert_eq!(hist.len(), 1);
}

#[test]
fn stream_chunks_kept_in_order() {
    let mut sink = vec!["earlier".to_string()];
    let items = vec![Ok("Hel".to_string()), Ok("lo".to_string()), Ok(", world".to_string())];
    let m = collect_response(items, &mut sink).unwrap();
    assert_eq!(m.role(), Role::Assistant);
    assert_eq!(m.content(), "Hello, world");
    assert_eq!(sink, vec!["earlier", "Hel", "lo", ", world"]);
}

#[test]
fn empty_stream_gives_empty_message() {
    let mut sink = Vec::new();
    let m = collect_response(Vec::new(), &mut sink).unwrap();
    assert_eq!(m.role(), Role::Assistant);
    assert_eq!(m.content(), "");
    assert!(sink.is_empty());
}

#[test]
fn stream_stops_at_first_error() {
    let mut sink = Vec::new();
    let items = vec![
        Ok("a".to_string()),
        Err(ChatbotError::Timeout),
        Ok("b".to_string()),
        Err(ChatbotError::ServerError),
    ];
    assert_eq!(collect_response(items, &mut sink).err(), Some(ChatbotError::Timeout));
    assert_eq!(sink, vec!["a".to_string()]);
}

#[test]
fn accumulator_concatenates() {
    let mut acc = ResponseAccumulator::new();
    acc.push_chunk("ab");
    acc.push_chunk("");
    acc.push_chunk("c");
    assert_eq!(acc.text(), "abc");
    let m = acc.finish();
    assert_eq!(m.content(), "abc");
}

#[test]
fn parse_splits_on_whitespace() {
    let c = parse_command("  /system   be   very\tbrief ");
    assert_eq!(c.kind, CommandKind::System);
    assert_eq!(c.arg.as_deref(), Some("be very brief"));
    let c = parse_command("/m  gpt extra");
    assert_eq!(c.kind, CommandKind::Model);
    assert_eq!(c.arg.as_deref(), Some("gpt"));
    let c = parse_command("/info now");
    assert_eq!(c.kind, CommandKind::Info);
    assert_eq!(c.arg, None);
    assert_eq!(parse_command("/CLEAR").kind, CommandKind::Invalid);
    assert_eq!(parse_command("   ").kind, CommandKind::Empty);
    let c = parse_tokens(&vec!["/s".to_string(), "log".to_string()]);
    assert_eq!(c.kind, CommandKind::Save);
    assert_eq!(c.arg.as_deref(), Some("log"));
}

#[test]
fn aliases_select_commands() {
    let pairs = [
        ("/lc", CommandKind::ListChatbots),
        ("/lm", CommandKind::ListModels),
        ("/i", CommandKind::Info),
        ("/h", CommandKind::Help),
        ("/l", CommandKind::Load),
        ("/se", CommandKind::Sessions),
        ("/d", CommandKind::Delete),
        ("/q", CommandKind::Quit),
        ("/cb", CommandKind::Chatbot),
    ];
    for (line, kind) in pairs {
        assert_eq!(parse_command(line).kind, kind);
    }
}

#[test]
fn storage_commands_hand_back_actions() {
    let mut s = Session::new();
    let mut b = dummy();
    assert!(matches!(handle_command("/save chat", &mut s, &mut b).action, Action::Save(n) if n == "chat"));
    assert!(matches!(handle_command("/load chat", &mut s, &mut b).action, Action::Load(n) if n == "chat"));
    assert!(matches!(handle_command("/d chat", &mut s, &mut b).action, Action::Delete(n) if n == "chat"));
    assert!(matches!(handle_command("/sessions", &mut s, &mut b).action, Action::ListSessions));
    assert!(matches!(handle_command("/quit", &mut s, &mut b).action, Action::Quit));
    let out = handle_command("/load", &mut s, &mut b);
    assert_eq!(out.error, Some(CommandError::MissingArgument));
    assert!(matches!(out.action, Action::Continue));
}

#[test]
fn invalid_and_model_commands() {
    let mut s = Session::new();
    let mut b = dummy();
    assert_eq!(handle_command("/nope", &mut s, &mut b).error, Some(CommandError::InvalidCommand));
    assert_eq!(handle_command("/model 7", &mut s, &mut b).error, Some(CommandError::InvalidModel));
    let out = handle_command("/model 1", &mut s, &mut b);
    assert_eq!(out.error, None);
    assert_eq!(out.notices[0].text, "Chatbot model changed to 1");
    let out = handle_command("/lm", &mut s, &mut b);
    let texts: Vec<&str> = out.notices.iter().map(|n| n.text.as_str()).collect();
    assert_eq!(texts, vec!["Available models:", "\t1"]);
}

#[test]
fn info_shows_system_prompt() {
    let mut s = session_of(vec![msg(Role::System, "terse"), msg(Role::User, "x")]);
    let mut b = dummy();
    let cmd = parse_command("/info");
    let out = execute(&cmd, &mut s, &mut b);
    let texts: Vec<&str> = out.notices.iter().map(|n| n.text.as_str()).collect();
    assert_eq!(texts, vec!["Current chatbot: Dummy", "Current model: 1", "System prompt: terse"]);
}

#[test]
fn input_is_classified() {
    assert_eq!(classify_input(" \t "), InputKind::Blank);
    assert_eq!(classify_input(""), InputKind::Blank);
    assert_eq!(classify_input("/help"), InputKind::Command);
    assert_eq!(classify_input("hello /x"), InputKind::Chat);
    assert_eq!(classify_input(" /x"), InputKind::Chat);
}

#[test]
fn pushing_system_message_replaces_prompt() {
    let mut s = session_of(vec![msg(Role::System, "a"), msg(Role::User, "u")]);
    s.push(msg(Role::System, "b"));
    assert_eq!(transcript(&s), vec![(Role::System, "b".to_string()), (Role::User, "u".to_string())]);
    assert_eq!(s.system_prompt().map(|p| p.as_str()), Some("b"));
}

#[test]
fn error_messages() {
    assert_eq!(ChatbotError::ApiKeyMissing.message(), "API key missing.");
    assert_eq!(ChatbotError::UnexpectedResponse.message(), "Unexpected response.");
}

#[test]
fn error_lines_name_the_problem() {
    let mut s = Session::new();
    let mut b = dummy();
    let out = handle_command("/model 7", &mut s, &mut b);
    assert_eq!(out.notices.len(), 1);
    assert_eq!(out.notices[0].text, "Invalid model.");
    let out = handle_command("/chatbot", &mut s, &mut b);
    assert_eq!(out.notices[0].text, "Chatbot is required. Usage: /chatbot <chatbot>");
    let out = handle_command("/clear", &mut s, &mut b);
    assert_eq!(out.notices[0].text, "Context cleared.");
    assert!(!out.notices[0].is_error);
}

#[test]
fn root_reexports_message_model() {
    let m = llmcli::Message::new(llmcli::Role::User, "x".to_string());
    assert_eq!(m.role(), llmcli::Role::User);
}
