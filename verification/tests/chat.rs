use picrust::chat::{patch_file_name, tool_input_preview, can_preview, Area, TuiClient};
use picrust::chat_commands::{commands, format_command, matching_commands, CommandDef};
use picrust::chat_keys::{ChatRequest, Key, KeyContext, Mouse};
use picrust::chat_text::{
    apply_selection_to_line, heading_level, is_table_row, is_table_separator,
    parse_inline_markdown, render_table_row, ChatLine, Hue, Look,
};
use picrust::daemon_events::{OutputChunk, ServerEvent};
use picrust::json;
use picrust::loop_client::{QuestionOptionWire, ToolResultWire, UserQuestionWire};

// ---------------------------------------------------------------------------
// Commands
// ---------------------------------------------------------------------------

#[test]
fn test_matching_commands_empty_input() {
    let matches = matching_commands("");
    assert!(matches.is_empty());
}

#[test]
fn test_matching_commands_non_slash() {
    let matches = matching_commands("hello");
    assert!(matches.is_empty());
}

#[test]
fn test_matching_commands_just_slash() {
    let matches = matching_commands("/");
    assert_eq!(matches.len(), commands().len());
}

#[test]
fn test_matching_commands_new_prefix() {
    let matches = matching_commands("/n");
    assert_eq!(matches.len(), 1);
    assert_eq!(matches[0].1.name, "/new");
}

#[test]
fn test_matching_commands_resume_prefix() {
    let matches = matching_commands("/res");
    assert_eq!(matches.len(), 1);
    assert_eq!(matches[0].1.name, "/resume");
}

#[test]
fn test_matching_commands_full_command() {
    let matches = matching_commands("/compact");
    assert_eq!(matches.len(), 1);
    assert_eq!(matches[0].1.name, "/compact");
}

#[test]
fn test_matching_commands_case_insensitive() {
    let matches = matching_commands("/New");
    assert_eq!(matches.len(), 1);
    assert_eq!(matches[0].1.name, "/new");
}

#[test]
fn test_matching_commands_unknown_prefix() {
    let matches = matching_commands("/xyz");
    assert!(matches.is_empty());
}

#[test]
fn test_format_command_no_args() {
    let cmd = CommandDef { name: "/new", args: "", desc: "test" };
    assert_eq!(format_command(&cmd), "/new");
}

#[test]
fn test_format_command_with_args() {
    let cmd = CommandDef { name: "/model", args: "<name>", desc: "test" };
    assert_eq!(format_command(&cmd), "/model <name>");
}

#[test]
fn test_command_defs_are_consistent() {
    for cmd in commands() {
        assert!(cmd.name.starts_with('/'), "Command '{}' must start with /", cmd.name);
        assert!(!cmd.desc.is_empty(), "Command '{}' must have a description", cmd.name);
    }
}

#[test]
fn test_no_duplicate_commands() {
    let all = commands();
    let mut names: Vec<&str> = all.iter().map(|c| c.name).collect();
    names.sort();
    names.dedup();
    assert_eq!(names.len(), all.len(), "Duplicate command names found");
}

// ---------------------------------------------------------------------------
// Text
// ---------------------------------------------------------------------------

fn texts(v: &[picrust::chat_text::Piece]) -> Vec<&str> {
    v.iter().map(|p| p.text.as_str()).collect()
}

#[test]
fn inline_markup_becomes_looks() {
    let base = Look::plain();
    let v = parse_inline_markdown("a **b** c", base);
    assert_eq!(texts(&v).concat(), "a b c");
    assert!(v.iter().any(|p| p.text == "b" && p.look.bold));
    let v = parse_inline_markdown("use `x` now", base);
    assert!(v.iter().any(|p| p.text.contains('x') && p.look.bg.is_some()));
    let v = parse_inline_markdown("plain", base);
    assert_eq!(texts(&v), vec!["plain"]);
    assert_eq!(v[0].look, base);
}

#[test]
fn headings_and_tables_are_told_apart() {
    assert_eq!(heading_level("# one"), Some(1));
    assert_eq!(heading_level("  ### three"), Some(3));
    assert_eq!(heading_level("####### seven"), None);
    assert_eq!(heading_level("#none"), None);
    assert_eq!(heading_level("text"), None);
    assert!(is_table_row("| a | b |"));
    assert!(!is_table_row("a | b"));
    assert!(is_table_separator("|---|:-:|"));
    assert!(!is_table_separator("| a |"));
    let row = render_table_row("| a | b |", Look::plain());
    let joined: String = texts(&row).concat();
    assert!(joined.contains('a') && joined.contains('b') && joined.contains('\u{2502}'));
}

#[test]
fn a_selection_marks_and_keeps_the_text() {
    let line = ChatLine::of("hello world".to_string(), Look::plain().fg(Hue::Cyan));
    let marked = apply_selection_to_line(&line, 6, 11);
    assert_eq!(marked.text(), "hello world");
    assert_eq!(texts(&marked.pieces), vec!["hello ", "world"]);
    assert!(marked.pieces[0].look.bg.is_none());
    assert!(marked.pieces[1].look.bg.is_some());
}

// ---------------------------------------------------------------------------
// The conversation
// ---------------------------------------------------------------------------

fn lines(client: &TuiClient) -> Vec<String> {
    client.chat_lines.iter().map(|l| l.text()).collect()
}

fn chunk(c: OutputChunk) -> ServerEvent {
    ServerEvent::Chunk { session_id: "s".to_string(), chunk: c }
}

fn context(now_ms: u64) -> KeyContext {
    KeyContext { now_ms, height: 24, stamp: "20260101-000000".to_string() }
}

fn type_in(client: &mut TuiClient, s: &str) {
    for c in s.chars() {
        assert!(client.on_key(Key::Char(c), false, &context(0)).is_none());
    }
}

#[test]
fn pieces_of_an_answer_make_one_answer() {
    let mut a = TuiClient::new();
    a.add_assistant_chunk("one\ntwo");
    a.add_assistant_chunk(" and three");
    let mut b = TuiClient::new();
    b.add_assistant_chunk("one\ntwo and three");
    assert_eq!(lines(&a), lines(&b));
    assert!(lines(&a).iter().any(|l| l.contains("two and three")));
}

#[test]
fn a_tool_call_is_marked_when_it_ends() {
    let mut client = TuiClient::new();
    client.add_tool_call("1", "Bash", "ls");
    assert!(lines(&client)[0].contains("Bash"));
    assert!(!client.add_tool_result("1", true, "ok"));
    let after = lines(&client);
    assert_eq!(after.len(), 1);
    assert!(after[0].contains('\u{2713}'));
}

#[test]
fn thoughts_fold_and_unfold() {
    let mut client = TuiClient::new();
    let long: String = (0..30).map(|i| format!("thought {}\n", i)).collect();
    client.add_thinking_chunk(&long);
    client.finish_thinking();
    let folded = client.chat_lines.len();
    client.expand_thinking();
    assert!(client.chat_lines.len() > folded);
    assert!(lines(&client).iter().any(|l| l.contains("thought 29")));
}

#[test]
fn typing_and_erasing_leaves_the_input() {
    let mut client = TuiClient::new();
    type_in(&mut client, "ab");
    let _ = client.on_key(Key::Left, false, &context(0));
    let _ = client.on_key(Key::Char('\u{e9}'), false, &context(0));
    assert_eq!(client.input, "a\u{e9}b");
    let _ = client.on_key(Key::Backspace, false, &context(0));
    assert_eq!(client.input, "ab");
    assert_eq!(client.cursor_pos, 1);
    let _ = client.on_key(Key::Delete, false, &context(0));
    assert_eq!(client.input, "a");
    let _ = client.on_paste("xyz");
    assert_eq!(client.input, "axyz");
    assert_eq!(client.cursor_pos, 4);
    let _ = client.on_key(Key::Home, false, &context(0));
    assert_eq!(client.cursor_pos, 0);
    let _ = client.on_key(Key::End, false, &context(0));
    assert_eq!(client.cursor_pos, 4);
}

#[test]
fn a_message_is_sent_once() {
    let mut client = TuiClient::new();
    client.session_id = "s".to_string();
    type_in(&mut client, "hello");
    let r = client.on_key(Key::Enter, false, &context(0));
    assert!(matches!(
        r,
        Some(ChatRequest::Run { session_id, content }) if session_id == "s" && content == "hello"
    ));
    assert!(client.processing);
    assert_eq!(client.status, "Processing...");
    assert_eq!(client.input, "");
    type_in(&mut client, "more");
    assert!(client.on_key(Key::Enter, false, &context(0)).is_none());
    assert!(client.handle_event(chunk(OutputChunk::Done)).is_none());
    assert!(!client.processing);
    assert!(client.on_key(Key::Enter, false, &context(0)).is_some());
}

#[test]
fn commands_do_what_they_say() {
    let mut client = TuiClient::new();
    client.session_id = "old".to_string();
    type_in(&mut client, "/new");
    assert!(client.on_key(Key::Enter, false, &context(0)).is_none());
    assert_eq!(client.session_id, "picrust-session-20260101-000000");
    type_in(&mut client, "/model fast");
    let r = client.on_key(Key::Enter, false, &context(0));
    assert!(matches!(r, Some(ChatRequest::SetModel { model, .. }) if model == "fast"));
    type_in(&mut client, "/model");
    let r = client.on_key(Key::Enter, false, &context(0));
    assert!(matches!(r, Some(ChatRequest::SetModel { model, .. }) if model == "gpt-4o"));
    type_in(&mut client, "/compact");
    assert!(matches!(
        client.on_key(Key::Enter, false, &context(0)),
        Some(ChatRequest::Compact(_))
    ));
    type_in(&mut client, "/resume  abc ");
    let r = client.on_key(Key::Enter, false, &context(0));
    assert!(matches!(r, Some(ChatRequest::Resume(s)) if s == "abc"));
    type_in(&mut client, "/huh");
    assert!(client.on_key(Key::Enter, false, &context(0)).is_none());
    assert!(lines(&client).last().unwrap().contains("Unknown command: /huh."));
    type_in(&mut client, "/list");
    assert!(matches!(
        client.on_key(Key::Enter, false, &context(0)),
        Some(ChatRequest::ListSessions)
    ));
    assert!(client.waiting_session_list);
    assert!(client
        .handle_event(ServerEvent::SessionList { sessions: vec!["a".to_string()] })
        .is_none());
    assert!(!client.waiting_session_list);
    assert!(lines(&client).last().unwrap().contains("/resume a"));
    type_in(&mut client, "/quit");
    assert!(client.on_key(Key::Enter, false, &context(0)).is_none());
    assert!(!client.running);
}

#[test]
fn a_command_is_completed_and_chosen() {
    let mut client = TuiClient::new();
    type_in(&mut client, "/mo");
    let _ = client.on_key(Key::Tab, false, &context(0));
    assert_eq!(client.input, "/model ");
    let mut client = TuiClient::new();
    type_in(&mut client, "/");
    let _ = client.on_key(Key::Up, false, &context(0));
    assert_eq!(client.input, commands().last().unwrap().name);
}

#[test]
fn the_interrupt_key_ends_when_pressed_twice() {
    let mut client = TuiClient::new();
    let r = client.on_key(Key::Char('c'), true, &context(1000));
    assert!(matches!(r, Some(ChatRequest::Interrupt(_))));
    assert!(client.running);
    let r = client.on_key(Key::Char('c'), true, &context(1600));
    assert!(matches!(r, Some(ChatRequest::Interrupt(_))));
    assert!(client.on_key(Key::Char('c'), true, &context(1700)).is_none());
    assert!(!client.running);
    let mut client = TuiClient::new();
    assert!(client.on_key(Key::Char('d'), true, &context(0)).is_none());
    assert!(!client.running);
}

#[test]
fn permissions_and_questions_take_their_keys() {
    let mut client = TuiClient::new();
    assert!(client
        .handle_event(chunk(OutputChunk::PermissionRequest {
            tool_name: "Bash".to_string(),
            action: "run".to_string(),
            input: "ls".to_string(),
            details: None,
        }))
        .is_none());
    assert!(client.waiting_permission);
    assert!(client.on_key(Key::Char('x'), false, &context(0)).is_none());
    assert!(client.waiting_permission);
    assert!(client.on_key(Key::Char('y'), false, &context(0)).is_none());
    assert!(!client.waiting_permission);
    assert!(lines(&client).last().unwrap().contains("Permission granted for Bash"));

    client.session_id = "s".to_string();
    assert!(client
        .handle_event(chunk(OutputChunk::AskUserQuestion {
            request_id: "r".to_string(),
            questions: vec![UserQuestionWire {
                question: "Which?".to_string(),
                header: "Colour".to_string(),
                options: vec![
                    QuestionOptionWire { label: "red".to_string(), description: "r".to_string() },
                    QuestionOptionWire { label: "blue".to_string(), description: "b".to_string() },
                ],
                multi_select: false,
            }],
        }))
        .is_none());
    assert!(client.waiting_question);
    assert!(client.on_key(Key::Char('3'), false, &context(0)).is_none());
    let r = client.on_key(Key::Char('2'), false, &context(0));
    assert!(matches!(
        r,
        Some(ChatRequest::Answer { request_id, header, label, .. })
            if request_id == "r" && header == "Colour" && label == "blue"
    ));
    assert!(!client.waiting_question);
}

#[test]
fn a_transfer_is_handed_on_as_a_patch() {
    let mut client = TuiClient::new();
    client.session_id = "my session".to_string();
    client.add_tool_call("1", "Transfer", "");
    let _ = client.add_tool_result("1", true, "diff");
    let name = patch_file_name("my session/1", "20260101");
    assert_eq!(name, "transfer-my_session_1-20260101.patch");
    client.report_patch(&name, "a\nb\n", Ok("/tmp/x.patch".to_string()));
    let all = lines(&client);
    assert!(all[all.len() - 2].contains("Patch saved to /tmp/x.patch"));
    assert!(all[all.len() - 1].contains("(0 KB, 2 lines)"));
}

#[test]
fn tool_calls_are_previewed() {
    let input = json::object(vec![json::entry("command", json::text_value("ls -la"))]);
    assert!(can_preview(&input));
    assert_eq!(tool_input_preview(&input), "ls -la");
    let long = "x".repeat(100);
    let input = json::object(vec![json::entry("pattern", json::text_value(&long))]);
    assert_eq!(tool_input_preview(&input), format!("{}\u{2026}", "x".repeat(80)));
    let split = "\u{20ac}".repeat(40);
    let input = json::object(vec![json::entry("file_path", json::text_value(&split))]);
    assert!(!can_preview(&input));
    let none = json::object(vec![]);
    assert_eq!(tool_input_preview(&none), "");
}

#[test]
fn events_restart_and_end_the_chat() {
    let mut client = TuiClient::new();
    client.add_user_msg("hi".to_string());
    assert!(client
        .handle_event(ServerEvent::SessionResumed {
            session_id: "r1".to_string(),
            session_name: "R".to_string(),
        })
        .is_none());
    assert_eq!(client.session_id, "r1");
    assert_eq!(client.chat_lines.len(), 1);
    assert!(lines(&client)[0].contains("Resumed session: R"));
    let gone = json::object(vec![json::entry("type", json::text_value("Disconnected"))]);
    assert!(client.handle_event(ServerEvent::Unknown(gone)).is_none());
    assert!(!client.running);
    let mut client = TuiClient::new();
    client.connection_lost();
    assert!(!client.running);
}

#[test]
fn scrolling_up_and_down_again() {
    let mut client = TuiClient::new();
    for i in 0..50 {
        client.add_system_msg(format!("{}", i));
    }
    assert!(client.auto_scroll);
    client.scroll_up_line();
    client.scroll_up_line();
    assert!(!client.auto_scroll);
    assert_eq!(client.scroll_offset, 2);
    client.scroll_down_line();
    client.scroll_down_line();
    assert!(client.auto_scroll);
    client.scroll_up_page(10);
    assert_eq!(client.scroll_offset, 8);
    client.scroll_down_page(10);
    assert!(client.auto_scroll);
}

#[test]
fn the_frame_fits_the_terminal() {
    let mut client = TuiClient::new();
    client.add_system_msg("hello".to_string());
    client.status = "Ready".to_string();
    let area = Area { x: 0, y: 0, width: 80, height: 24 };
    let plan = client.render(area).unwrap();
    assert_eq!(plan.chat_area.width, 80);
    assert_eq!(plan.status_area.height, 1);
    assert_eq!(plan.input_area.height, 3);
    assert_eq!(plan.chat_area.height, 20);
    assert!(plan.visible.iter().any(|l| l.text().contains("hello")));
    let chat = client.chat_area_from_size(area);
    assert_eq!(chat.height, 20);
}

#[test]
fn the_terminal_is_split_from_top_to_bottom() {
    let mut client = TuiClient::new();
    let term = Area { x: 1, y: 2, width: 80, height: 24 };
    let chat = client.chat_area_from_size(term);
    assert_eq!(chat, Area { x: 1, y: 2, width: 80, height: 20 });
    let plan = client.render(term).unwrap();
    assert_eq!(plan.chat_area, chat);
    assert_eq!(plan.status_area, Area { x: 1, y: 22, width: 80, height: 1 });
    assert_eq!(plan.input_area, Area { x: 1, y: 23, width: 80, height: 3 });
    assert!(plan.commands.is_none());
    client.input = "/".to_string();
    let plan = client.render(term).unwrap();
    let (at, shown) = plan.commands.unwrap();
    assert_eq!(at, Area { x: 1, y: 16, width: 80, height: 7 });
    assert_eq!(shown.len(), 6);
    assert_eq!(plan.chat_area.height, 13);
    client.input = "x".repeat(79);
    assert_eq!(client.chat_area_from_size(term).height, 19);
}

#[test]
fn parts_stay_inside_a_small_terminal() {
    let client = TuiClient::new();
    for height in 0..6 {
        let term = Area { x: 0, y: 3, width: 10, height };
        let plan = client.render(term).unwrap();
        let parts = [plan.chat_area, plan.status_area, plan.input_area];
        let mut top = term.y;
        for part in parts {
            assert!(part.y >= top);
            assert_eq!((part.x, part.width), (0, 10));
            top = part.y + part.height;
        }
        assert!(top <= term.y + term.height);
    }
}

#[test]
fn the_mouse_selects_text() {
    let mut client = TuiClient::new();
    client.add_line(ChatLine::of("hello world".to_string(), Look::plain()));
    let term = Area { x: 0, y: 0, width: 80, height: 24 };
    let chat = client.chat_area_from_size(term);
    assert!(client.on_mouse(Mouse::Press, 1, 1, term, chat, 0).is_none());
    assert!(client.on_mouse(Mouse::Drag, 5, 1, term, chat, 0).is_none());
    let copied = client.on_mouse(Mouse::Release, 6, 1, term, chat, 0);
    assert_eq!(copied, Some("hello".to_string()));
    assert!(client.flash_message.is_some());
    client.tick(4999);
    assert!(client.flash_message.is_some());
    client.tick(5000);
    assert!(client.flash_message.is_none());
}

#[test]
fn a_tool_that_failed_is_marked_so() {
    let mut client = TuiClient::new();
    let start = chunk(OutputChunk::ToolStart {
        id: "7".to_string(),
        name: "Read".to_string(),
        input: json::object(vec![json::entry("file_path", json::text_value("/a"))]),
    });
    assert!(client.handle_event(start).is_none());
    let end = chunk(OutputChunk::ToolEnd {
        id: "7".to_string(),
        name: "Read".to_string(),
        input: json::object(vec![]),
        result: ToolResultWire { text: "no".to_string(), is_error: true, content: None },
    });
    assert!(client.handle_event(end).is_none());
    assert!(lines(&client)[0].contains('\u{2717}'));
}

#[test]
fn the_name_of_a_session_is_shown_once() {
    let mut client = TuiClient::new();
    let created = |name: &str| ServerEvent::Created {
        session_id: "s".to_string(),
        session_name: name.to_string(),
    };
    assert!(client.handle_event(created("one")).is_none());
    let shown = lines(&client);
    assert!(shown.iter().any(|l| l.contains("one")));
    assert!(client.handle_event(created("two")).is_none());
    assert_eq!(lines(&client), shown);
}

#[test]
fn an_error_ends_the_turn() {
    let mut client = TuiClient::new();
    client.session_id = "s".to_string();
    type_in(&mut client, "hello");
    assert!(client.on_key(Key::Enter, false, &context(0)).is_some());
    assert!(client.processing);
    assert!(client.handle_event(chunk(OutputChunk::TextDelta("par".to_string()))).is_none());
    assert!(client.handle_event(chunk(OutputChunk::Error("broken".to_string()))).is_none());
    assert!(!client.processing);
    assert!(lines(&client).iter().any(|l| l.contains("broken")));
}

#[test]
fn the_end_of_a_long_conversation_is_in_view() {
    let mut client = TuiClient::new();
    for i in 0..100 {
        client.add_system_msg(format!("line {}.", i));
    }
    let area = Area { x: 0, y: 0, width: 80, height: 24 };
    let plan = client.render(area).unwrap();
    assert!(plan.visible.len() <= 20);
    assert!(plan.visible.last().unwrap().text().contains("line 99."));
    client.scroll_up_page(20);
    let plan = client.render(area).unwrap();
    assert!(!plan.visible.iter().any(|l| l.text().contains("line 99.")));
}
