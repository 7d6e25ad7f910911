//! The line client, the console, and what they read from the daemon.

use picrust::answers::put_answer;
use picrust::daemon_events::{OutputChunk as DaemonChunk, ServerEvent as DaemonEvent};
use picrust::daemon_reader::parse_piece;
use picrust::json::{object, parse, Json};
use picrust::line_client::{
    ask, can_print, choose_option, chunk_to_one_liner, on_event, on_line, session_config,
    take_answer, EventStep, LineInput,
};
use picrust::loop_client::{
    parse_chunk, request_line, send_ask_response, send_run, socket_path, EventError, OutputChunk,
    QuestionOptionWire, ServerEvent, SessionConfig, ToolResultWire, UserQuestionWire,
};
use picrust::output::{InputMessage, OutputChunk as AgentChunk};
use picrust::permissions::PermissionDecision;
use picrust::renderer::{
    after_turn, can_format, format_tool_args, on_input, permission_response, ConsoleAction,
    ConsoleInput, ConsoleRenderer, TurnEnd,
};
use picrust::text::{join, lines, parse_number, split, split_words, trim};

fn js(text: &str) -> Json {
    match parse(text) {
        Ok(v) => v,
        Err(e) => panic!("not JSON: {}", e.message),
    }
}

fn question() -> UserQuestionWire {
    UserQuestionWire {
        question: "Which?".to_string(),
        header: "Pick".to_string(),
        options: vec![
            QuestionOptionWire { label: "one".to_string(), description: "first".to_string() },
            QuestionOptionWire { label: "two".to_string(), description: "second".to_string() },
        ],
        multi_select: false,
    }
}

#[test]
fn events_are_read_from_lines() {
    let line = r#"{"type": "Chunk", "session_id": "s", "chunk": {"TextDelta": "hi"}}"#;
    match ServerEvent::from_json_line(line) {
        Ok(ServerEvent::Chunk { session_id, chunk: OutputChunk::TextDelta(s) }) => {
            assert_eq!(session_id, "s");
            assert_eq!(s, "hi");
        }
        Ok(ServerEvent::Unknown(v)) => panic!("unknown: {}", v.to_text()),
        _ => panic!("expected a piece of text"),
    }
    assert!(matches!(ServerEvent::from_json_line("nope"), Err(EventError::NotJson(_))));
    assert!(matches!(ServerEvent::from_json_line("[1]"), Err(EventError::NotAnObject)));
    assert!(matches!(ServerEvent::from_json_line(r#"{"type": "fly"}"#), Ok(ServerEvent::Unknown(_))));
    assert!(ServerEvent::from_socket_line("  \n").is_none());
    assert!(matches!(parse_chunk(&js(r#""Done""#)), OutputChunk::Done));
    assert!(matches!(parse_chunk(&js(r#""Other""#)), OutputChunk::Unknown));
}

#[test]
fn requests_read_back() {
    let config = SessionConfig { stream: true, think: false, no_cache: true };
    let line = send_run("s", "say \"hi\"\n", &config);
    assert!(line.ends_with('\n'));
    assert_eq!(line.matches('\n').count(), 1);
    let read = js(line.trim_end());
    assert_eq!(read.text_or_empty("type"), "run");
    assert_eq!(read.text_or_empty("session_id"), "s");
    assert_eq!(read.text_or_empty("content"), "say \"hi\"\n");
    let config = read.get("config").unwrap();
    assert!(config.flag("stream") && !config.flag("think") && config.flag("no_cache"));
    let line = send_ask_response("s", "r", &vec![("Pick".to_string(), "one".to_string())]);
    let read = js(line.trim_end());
    assert_eq!(read.text_or_empty("request_id"), "r");
    assert_eq!(read.get("answers").unwrap().text_or_empty("Pick"), "one");
    assert_eq!(request_line(&object(vec![])), "{}\n");
    assert_eq!(socket_path(None), "/tmp/omega-loop.sock");
}

#[test]
fn the_last_answer_under_a_header_is_sent() {
    let answers: Vec<(String, String)> = [("Pick", "one"), ("Size", "big"), ("Pick", "two")]
        .iter()
        .map(|(h, l)| (h.to_string(), l.to_string()))
        .collect();
    let read = js(send_ask_response("s", "r", &answers).trim_end());
    let sent = read.get("answers").unwrap();
    assert_eq!(sent.text_or_empty("Pick"), "two");
    assert_eq!(sent.text_or_empty("Size"), "big");
}

#[test]
fn events_of_other_types_are_kept_whole() {
    match ServerEvent::from_json_line(r#"{"type": "fly", "to": "moon"}"#) {
        Ok(ServerEvent::Unknown(v)) => {
            assert_eq!(v.text_or_empty("type"), "fly");
            assert_eq!(v.text_or_empty("to"), "moon");
        }
        _ => panic!("expected an unknown event"),
    }
}

#[test]
fn arguments_choose_the_session() {
    let words = |s: &str| s.split(' ').map(|w| w.to_string()).collect::<Vec<String>>();
    let c = session_config(&words("prog"));
    assert!(c.stream && !c.think && !c.no_cache);
    let c = session_config(&words("prog -n -t --no-cache"));
    assert!(!c.stream && c.think && c.no_cache);
    let c = session_config(&words("prog --no-stream --think"));
    assert!(!c.stream && c.think && !c.no_cache);
}

#[test]
fn lines_are_sent_or_end_the_program() {
    assert!(matches!(on_line("  \n"), LineInput::Skip));
    for word in ["exit", " /exit ", "/quit\n"] {
        assert!(matches!(on_line(word), LineInput::Leave { notice } if notice == "Goodbye!\n"));
    }
    assert!(matches!(on_line(" hello \n"), LineInput::Send(s) if s == "hello"));
    assert!(matches!(on_line("quit"), LineInput::Send(s) if s == "quit"));
}

#[test]
fn the_session_is_told_only_once() {
    let created = || {
        Some(ServerEvent::Created {
            session_id: "s".to_string(),
            session_name: "name".to_string(),
        })
    };
    let mut first = true;
    assert!(matches!(on_event(&mut first, created()), EventStep::Print(s) if s == "Session: name\n"));
    assert!(matches!(on_event(&mut first, created()), EventStep::Print(s) if s.is_empty()));
    assert!(matches!(on_event(&mut first, None), EventStep::Gone { .. }));
    let done = ServerEvent::Chunk { session_id: "s".to_string(), chunk: OutputChunk::Done };
    assert!(matches!(on_event(&mut first, Some(done)), EventStep::Finish(s) if s == "\n"));
    let asked = ServerEvent::Chunk {
        session_id: "s".to_string(),
        chunk: OutputChunk::AskUserQuestion {
            request_id: "r".to_string(),
            questions: vec![question()],
        },
    };
    assert!(matches!(
        on_event(&mut first, Some(asked)),
        EventStep::Ask { request_id, questions } if request_id == "r" && questions.len() == 1
    ));
}

#[test]
fn pieces_are_printed_in_a_row() {
    let end = |is_error| OutputChunk::ToolEnd {
        id: "1".to_string(),
        result: ToolResultWire { text: String::new(), is_error, content: None },
    };
    assert_eq!(chunk_to_one_liner(&end(false)), "  \x1b[32m\u{2713}\x1b[0m\n");
    assert_eq!(chunk_to_one_liner(&end(true)), "  \x1b[31m\u{2717}\x1b[0m\n");
    assert_eq!(
        chunk_to_one_liner(&OutputChunk::Error("bad".to_string())),
        "\x1b[31mError: bad\x1b[0m\n"
    );
    let start = OutputChunk::ToolStart {
        id: "1".to_string(),
        name: "Bash".to_string(),
        input: js(r#"{"command": "ls"}"#),
    };
    assert!(can_print(&start));
    assert_eq!(chunk_to_one_liner(&start), "\n  \x1b[33m\u{26a1} Bash\x1b[0m ls");
}

#[test]
fn questions_are_answered_by_number() {
    assert_eq!(
        ask(&question()),
        "\n\x1b[36mPick\x1b[0m\nWhich?\n  1. one \u{2014} first\n  2. two \u{2014} second\nAnswer (number): "
    );
    assert_eq!(choose_option(&question(), " 2\n"), "two");
    assert_eq!(choose_option(&question(), "0"), "");
    assert_eq!(choose_option(&question(), "3"), "");
    assert_eq!(choose_option(&question(), "two"), "");
    let mut answers = Vec::new();
    take_answer(&mut answers, &question(), "1");
    take_answer(&mut answers, &question(), "2");
    put_answer(&mut answers, "Other", "x");
    assert_eq!(
        answers,
        vec![
            ("Pick".to_string(), "two".to_string()),
            ("Other".to_string(), "x".to_string())
        ]
    );
}

fn shown(r: &ConsoleRenderer, chunks: Vec<AgentChunk>) -> (Vec<ConsoleAction>, bool) {
    let mut place = ConsoleRenderer::start();
    let mut all = Vec::new();
    let mut over = false;
    for c in chunks {
        assert!(r.can_render(&c));
        let (acts, ended) = r.render(&mut place, c);
        all.extend(acts);
        over = ended;
    }
    (all, over)
}

#[test]
fn text_is_shown_under_one_prefix() {
    let (acts, over) = shown(
        &ConsoleRenderer::new(),
        vec![
            AgentChunk::TextDelta("a".to_string()),
            AgentChunk::TextDelta("b".to_string()),
            AgentChunk::Done,
        ],
    );
    assert!(over);
    assert!(matches!(acts[0], ConsoleAction::AssistantPrefix));
    assert!(matches!(&acts[1], ConsoleAction::AssistantChunk(s) if s == "a"));
    assert!(matches!(&acts[2], ConsoleAction::AssistantChunk(s) if s == "b"));
    assert!(matches!(acts[3], ConsoleAction::NewLine));
}

#[test]
fn thoughts_and_tools_can_be_hidden() {
    let chunks = || {
        vec![
            AgentChunk::ThinkingDelta("hm".to_string()),
            AgentChunk::ThinkingComplete("hm".to_string()),
            AgentChunk::ToolStart {
                id: "1".to_string(),
                name: "Read".to_string(),
                input: js(r#"{"file_path": "/f"}"#),
            },
        ]
    };
    let (acts, over) = shown(&ConsoleRenderer::new(), chunks());
    assert!(!over);
    assert_eq!(acts.len(), 4);
    assert!(matches!(acts[0], ConsoleAction::ThinkingPrefix));
    assert!(matches!(acts[2], ConsoleAction::ThinkingSuffix));
    assert!(
        matches!(&acts[3], ConsoleAction::ToolAction { name, args } if name == "Read" && args == "/f")
    );
    let quiet = ConsoleRenderer::new().show_thinking(false).show_tools(false);
    assert!(shown(&quiet, chunks()).0.is_empty());
}

#[test]
fn ended_subagents_are_told_with_their_result() {
    let (acts, _) = shown(
        &ConsoleRenderer::new(),
        vec![AgentChunk::SubAgentComplete {
            session_id: "s".to_string(),
            result: Some("ok \"x\"".to_string()),
        }],
    );
    assert!(acts.iter().any(|a| matches!(
        a,
        ConsoleAction::System(s) if s == "Subagent s completed: Some(\"ok \\\"x\\\"\")"
    )));
}

#[test]
fn questions_get_their_first_answer() {
    let (acts, _) = shown(
        &ConsoleRenderer::new(),
        vec![AgentChunk::AskUserQuestion {
            request_id: "r".to_string(),
            questions: vec![question()],
        }],
    );
    assert!(acts.iter().any(|a| matches!(a, ConsoleAction::System(s) if s == "[Pick] Which?")));
    assert!(acts.iter().any(|a| matches!(a, ConsoleAction::System(s) if s == "  1. one - first")));
    assert!(acts.iter().any(|a| matches!(a, ConsoleAction::Tell(_))));
}

#[test]
fn hidden_tools_may_have_any_arguments() {
    let odd = js(&format!(r#"{{"command": "{}éé"}}"#, "x".repeat(79)));
    let start = || AgentChunk::ToolStart {
        id: "1".to_string(),
        name: "Bash".to_string(),
        input: odd.copy(),
    };
    assert!(!ConsoleRenderer::new().can_render(&start()));
    let hidden = ConsoleRenderer::new().show_tools(false);
    let (acts, over) = shown(&hidden, vec![start()]);
    assert!(acts.is_empty());
    assert!(!over);
}

#[test]
fn screen_clients_read_events_of_all_kinds() {
    let read = |line: &str| match DaemonEvent::from_socket_line(line) {
        Some(Ok(e)) => e,
        _ => panic!("not read: {line}"),
    };
    assert!(DaemonEvent::from_socket_line(" \n").is_none());
    assert!(matches!(DaemonEvent::from_socket_line("{"), Some(Err(EventError::NotJson(_)))));
    assert!(matches!(DaemonEvent::from_socket_line("[]"), Some(Err(EventError::NotAnObject))));
    match read(r#"{"type": "Created", "session_id": "s", "session_name": "n"}"#) {
        DaemonEvent::Created { session_id, session_name } => {
            assert_eq!((session_id.as_str(), session_name.as_str()), ("s", "n"));
        }
        _ => panic!("another event"),
    }
    match read(r#"{"type": "SessionList", "sessions": ["a", 1, "b"]}"#) {
        DaemonEvent::SessionList { sessions } => assert_eq!(sessions, vec!["a", "b"]),
        _ => panic!("another event"),
    }
    assert!(matches!(
        read(r#"{"type": "SessionResumed", "session_id": "s", "session_name": "n"}"#),
        DaemonEvent::SessionResumed { session_id, session_name }
            if session_id == "s" && session_name == "n"
    ));
    assert!(matches!(
        read(r#"{"type": "ModelChanged", "model": "m"}"#),
        DaemonEvent::ModelChanged { model } if model == "m"
    ));
    assert!(matches!(
        read(r#"{"type": "SessionCompacted", "session_id": "s"}"#),
        DaemonEvent::SessionCompacted { session_id } if session_id == "s"
    ));
    assert!(matches!(
        read(r#"{"type": "ModelList", "models": ["m"]}"#),
        DaemonEvent::ModelList { models } if models == vec!["m".to_string()]
    ));
    assert!(matches!(
        read(r#"{"type": "SystemMsg", "message": "hi"}"#),
        DaemonEvent::SystemMsg(s) if s == "hi"
    ));
    assert!(matches!(
        read(r#"{"type": "Disconnected"}"#),
        DaemonEvent::Unknown(j) if j.text_or_empty("type") == "Disconnected"
    ));
    assert!(matches!(
        read(r#"{"type": "Chunk", "session_id": "s", "chunk": "Done"}"#),
        DaemonEvent::Chunk { session_id, chunk: DaemonChunk::Done } if session_id == "s"
    ));
}

#[test]
fn pieces_of_all_kinds_are_read() {
    assert!(matches!(
        parse_piece(&js(r#"{"TextDelta": "a"}"#)),
        DaemonChunk::TextDelta(s) if s == "a"
    ));
    let end = r#"{"ToolEnd": {"id": "1", "name": "Bash", "input": {"command": "ls"},
        "result": {"content": {"Text": "out"}, "is_error": true}}}"#;
    match parse_piece(&js(end)) {
        DaemonChunk::ToolEnd { id, name, input, result } => {
            assert_eq!((id.as_str(), name.as_str()), ("1", "Bash"));
            assert_eq!(input.text_or_empty("command"), "ls");
            assert_eq!(result.text, "out");
            assert!(result.is_error && result.content.is_none());
        }
        _ => panic!("another piece"),
    }
    match parse_piece(&js(r#"{"ToolEnd": {}}"#)) {
        DaemonChunk::ToolEnd { id, name, input, result } => {
            assert!(id.is_empty() && name.is_empty() && result.text.is_empty());
            assert!(matches!(input, Json::Null));
        }
        _ => panic!("another piece"),
    }
    let ask = r#"{"PermissionRequest": {"tool_name": "Bash", "action": "run", "input": "ls",
        "details": null}}"#;
    assert!(matches!(
        parse_piece(&js(ask)),
        DaemonChunk::PermissionRequest { tool_name, action, input, details: None }
            if tool_name == "Bash" && action == "run" && input == "ls"
    ));
    let took = |n: &str| {
        let text = format!(
            r#"{{"CacheTelemetry": {{"input_tokens": {n}, "output_tokens": 2,
            "cache_read_tokens": 3, "cache_creation_tokens": 4}}}}"#
        );
        parse_piece(&js(&text))
    };
    assert!(matches!(
        took("4294967295"),
        DaemonChunk::CacheTelemetry {
            input_tokens: u32::MAX,
            output_tokens: 2,
            cache_read_tokens: 3,
            cache_creation_tokens: 4,
        }
    ));
    assert!(matches!(took("4294967296"), DaemonChunk::Unknown));
    assert!(matches!(parse_piece(&js(r#"{"Fly": 1}"#)), DaemonChunk::Unknown));
    assert!(matches!(parse_piece(&js("{}")), DaemonChunk::Unknown));
    assert!(matches!(parse_piece(&js(r#""Done""#)), DaemonChunk::Done));
}

#[test]
fn tool_arguments_are_shortened() {
    assert_eq!(format_tool_args("Bash", &js(r#"{"command": "ls"}"#)), "$ ls");
    assert_eq!(format_tool_args("Write", &js(r#"{"path": "/p"}"#)), "/p");
    let long = js(&format!(r#"{{"command": "{}"}}"#, "x".repeat(81)));
    assert!(can_format("Bash", &long));
    assert_eq!(format_tool_args("Bash", &long), format!("$ {}\u{2026}", "x".repeat(80)));
    let odd = js(&format!(r#"{{"command": "{}éé"}}"#, "x".repeat(79)));
    assert!(!can_format("Bash", &odd));
}

#[test]
fn console_input_is_sent_or_ends_the_agent() {
    assert!(matches!(on_input("EXIT".to_string()), ConsoleInput::Leave { .. }));
    assert!(matches!(on_input("Quit".to_string()), ConsoleInput::Leave { .. }));
    assert!(matches!(on_input("  ".to_string()), ConsoleInput::Skip));
    assert!(matches!(on_input("hi ".to_string()), ConsoleInput::Send(s) if s == "hi "));
}

#[test]
fn decisions_are_told_to_the_agent() {
    use_decision(PermissionDecision::Allow, true, false);
    use_decision(PermissionDecision::Deny, false, false);
    use_decision(PermissionDecision::AlwaysAllow, true, true);
    use_decision(PermissionDecision::AlwaysDeny, false, true);
}

fn use_decision(d: PermissionDecision, allow: bool, keep: bool) {
    match permission_response("Bash", d) {
        InputMessage::PermissionResponse { tool_name, allowed, remember } => {
            assert_eq!(tool_name, "Bash");
            assert_eq!((allowed, remember), (allow, keep));
        }
        _ => panic!("expected a decision"),
    }
}

#[test]
fn texts_are_taken_apart_and_put_together() {
    assert_eq!(trim(" \u{a0}a b\n"), "a b");
    assert_eq!(lines("a\r\nb\n\nc"), vec!["a", "b", "", "c"]);
    assert_eq!(split("a//b", '/'), vec!["a", "", "b"]);
    assert_eq!(split_words("  a \t b "), vec!["a", "b"]);
    assert_eq!(join(&vec!["a".to_string(), "b".to_string()], ", "), "a, b");
    assert_eq!(parse_number("+17", 255), Some(17));
    assert_eq!(parse_number("256", 255), None);
    assert_eq!(parse_number("", 255), None);
    assert_eq!(parse_number("1x", 255), None);
}

#[test]
fn the_console_ends_when_the_agent_is_gone() {
    let after = after_turn(TurnEnd::Shown);
    assert!(after.error.is_none() && after.blank_line && !after.leave);
    let after = after_turn(TurnEnd::RenderFailed("pipe".to_string()));
    assert_eq!(after.error.unwrap(), "Render error: pipe");
    assert!(after.blank_line && !after.leave);
    let after = after_turn(TurnEnd::SendFailed("channel closed".to_string()));
    assert_eq!(after.error.unwrap(), "Failed to send input: channel closed");
    assert!(!after.blank_line && after.leave);
    let after = after_turn(TurnEnd::Closed);
    assert!(after.error.is_none() && after.leave);
}
