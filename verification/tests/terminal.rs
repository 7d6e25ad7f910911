//! The terminal client: what submitted lines and daemon events do to the
//! session and to the screen.

use picrust::daemon_events::{
    handle_daemon_event, report_transfer, saved_name, tool_call_line, truncate_to_width,
    OutputChunk, ServerEvent, Streaming,
};
use picrust::json::{parse, Json};
use picrust::loop_client::ToolResultWire;
use picrust::style::{Colour, Span, StyledBlock, StyledText};
use picrust::terminal::{
    complete, first_session, fresh_name, process_line, s_assistant, AppState, CacheFigures,
    CacheStats, DaemonCmd, LineOutcome, Screen,
};

const COLS: usize = 40;

/// A client with a drawn screen: `rows` is what the last drawing showed,
/// `written` the escapes that it wrote.
struct Fixture {
    screen: Screen,
    app: AppState,
    streaming: Streaming,
    commands: Vec<DaemonCmd>,
    rows: Vec<String>,
    written: Vec<u8>,
}

fn text_of(block: &StyledBlock) -> String {
    block.content.spans().iter().map(|s| s.text.as_str()).collect()
}

fn wrap(text: &str, rows: &mut Vec<String>) {
    for line in text.lines() {
        let chars: Vec<char> = line.chars().collect();
        for part in chars.chunks(COLS) {
            rows.push(part.iter().collect());
        }
    }
}

impl Fixture {
    fn draw(&mut self) {
        self.written.extend_from_slice(self.screen.take_clear().as_bytes());
        self.rows.clear();
        for block in self.screen.blocks.iter().flatten() {
            wrap(&text_of(block), &mut self.rows);
        }
        if let Some(block) = &self.screen.status {
            wrap(&text_of(block), &mut self.rows);
        }
    }

    fn take_cmd(&mut self) -> Result<DaemonCmd, ()> {
        if self.commands.is_empty() {
            Err(())
        } else {
            Ok(self.commands.remove(0))
        }
    }
}

fn fixture() -> Fixture {
    Fixture {
        screen: Screen::new(COLS),
        app: AppState {
            session_id: "sess-1".to_string(),
            model: "gpt-a".to_string(),
            cache: CacheStats::default(),
        },
        streaming: Streaming::new(),
        commands: Vec::new(),
        rows: Vec::new(),
        written: Vec::new(),
    }
}

fn line(fx: &mut Fixture, text: &str) -> LineOutcome {
    process_line(text, &mut fx.app, &mut fx.screen, &mut fx.commands)
}

fn event(fx: &mut Fixture, ev: ServerEvent) {
    let handled = handle_daemon_event(&mut fx.screen, &mut fx.app, &mut fx.streaming, ev);
    if handled.redraw_status {
        let block = fx.app.cache.to_status_block(COLS, &figures(&fx.app.cache));
        fx.screen.set_status_line(block);
    }
}

fn chunk(c: OutputChunk) -> ServerEvent {
    ServerEvent::Chunk { session_id: "sess-1".to_string(), chunk: c }
}

fn js(text: &str) -> Json {
    match parse(text) {
        Ok(v) => v,
        Err(e) => panic!("not JSON: {}", e.message),
    }
}

fn tokens(n: u64) -> String {
    let scale = CacheStats::token_scale(n);
    let scaled = if scale.decimals == 1 {
        format!("{:.1}", n as f64 / scale.divisor as f64)
    } else {
        format!("{:.0}", n as f64 / scale.divisor as f64)
    };
    CacheStats::fmt_tokens(n, &scaled)
}

fn rate(cs: &CacheStats) -> f64 {
    if cs.total_input_tokens == 0 {
        0.0
    } else {
        cs.total_cache_read_tokens as f64 / cs.total_input_tokens as f64 * 100.0
    }
}

fn figures(cs: &CacheStats) -> CacheFigures {
    CacheFigures {
        input: tokens(cs.total_input_tokens),
        output: tokens(cs.total_output_tokens),
        read: tokens(cs.total_cache_read_tokens),
        rate: format!("{:5.1}", rate(cs)),
    }
}

fn count_rows_containing(fx: &Fixture, needle: &str) -> usize {
    fx.rows.iter().filter(|l| l.contains(needle)).count()
}

fn transcript_contains(fx: &Fixture, needle: &str) -> bool {
    fx.rows.join("").contains(needle)
}

#[test]
fn user_line_sends_run_and_echoes() {
    let mut fx = fixture();
    let outcome = line(&mut fx, "hello agent");
    assert_eq!(outcome, LineOutcome::Continue);
    match fx.take_cmd() {
        Ok(DaemonCmd::Run {
            session_id,
            content,
        }) => {
            assert_eq!(session_id, "sess-1");
            assert_eq!(content, "hello agent");
        }
        other => panic!("expected Run, got {other:?}"),
    }
    fx.draw();
    assert_eq!(count_rows_containing(&fx, "▸ hello agent"), 1);
}

#[test]
fn quit_returns_true() {
    let mut fx = fixture();
    assert_eq!(
        line(&mut fx, "/quit"),
        LineOutcome::Quit
    );
    assert!(fx.take_cmd().is_err(), "no command expected");
}

#[test]
fn model_command_sets_model() {
    let mut fx = fixture();
    line(&mut fx, "/model gpt-b");
    assert_eq!(fx.app.model, "gpt-b");
    match fx.take_cmd() {
        Ok(DaemonCmd::SetModel { session_id, model }) => {
            assert_eq!(session_id, "sess-1");
            assert_eq!(model, "gpt-b");
        }
        other => panic!("expected SetModel, got {other:?}"),
    }
}

#[test]
fn help_renders_commands() {
    let mut fx = fixture();
    line(&mut fx, "/help");
    fx.draw();
    assert_eq!(count_rows_containing(&fx, "Available commands"), 1);
    assert_eq!(count_rows_containing(&fx, "/compact"), 1);
    assert_eq!(count_rows_containing(&fx, "/interrupt"), 1);
}

#[test]
fn unknown_command_renders_error() {
    let mut fx = fixture();
    line(&mut fx, "/bogus");
    fx.draw();
    assert_eq!(count_rows_containing(&fx, "▸ /bogus"), 1);
    match fx.take_cmd() {
        Ok(DaemonCmd::Run { content, .. }) => assert_eq!(content, "/bogus"),
        other => panic!("expected Run, got {other:?}"),
    }
}

#[test]
fn clear_takes_full_render_path() {
    let mut fx = fixture();
    line(&mut fx, "hello");
    fx.draw();
    assert_eq!(count_rows_containing(&fx, "▸ hello"), 1);

    line(&mut fx, "/clear");
    fx.draw();
    let out = fx.written.clone();
    assert!(
        out.windows(4).any(|w| w == b"\x1b[3J"),
        "/clear did not full-render"
    );
    assert_eq!(count_rows_containing(&fx, "▸ hello"), 0);
}

#[test]
fn streaming_deltas_update_single_block() {
    let mut fx = fixture();
    event(&mut fx, chunk(OutputChunk::TextDelta("Hello, ".into())));
    event(&mut fx, chunk(OutputChunk::TextDelta("world".into())));
    fx.draw();
    assert_eq!(count_rows_containing(&fx, "Hello, world"), 1);

    event(&mut fx, chunk(OutputChunk::TextComplete("Hello, world!".into())));
    fx.draw();
    assert_eq!(count_rows_containing(&fx, "Hello, world!"), 1);
    assert_eq!(count_rows_containing(&fx, "Hello, world"), 1);
}

#[test]
fn streaming_then_done_keeps_text() {
    let mut fx = fixture();
    event(&mut fx, chunk(OutputChunk::TextDelta("partial".into())));
    event(&mut fx, chunk(OutputChunk::Done));
    fx.draw();
    assert_eq!(count_rows_containing(&fx, "partial"), 1);
    assert!(fx.streaming.block_id.is_none());
    assert!(fx.streaming.buf.is_empty());
}

#[test]
fn tool_events_render() {
    let mut fx = fixture();
    event(&mut fx, chunk(OutputChunk::ToolStart {
            id: "t1".into(),
            name: "read_file".into(),
            input: js(r#"{"path": "src/main.rs"}"#),
        }));
    event(&mut fx, chunk(OutputChunk::ToolEnd {
            id: "t1".into(),
            name: "read_file".into(),
            input: js(r#"{"path": "src/main.rs"}"#),
            result: ToolResultWire {
                text: "boom".into(),
                is_error: true,
                content: None,
            },
        }));
    fx.draw();
    assert_eq!(
        count_rows_containing(&fx, "tool call read_file: src/main.rs"),
        1
    );
    assert_eq!(count_rows_containing(&fx, "✗ boom"), 1);
}

#[test]
fn tool_call_line_prefers_command_over_noise() {
    let line = tool_call_line(
        "Bash",
        &js(r#"{ "command": "pwd && ls -la", "description": "Check current working directory"}"#),
    );
    assert_eq!(line, "tool call Bash: pwd && ls -la");
    assert!(!line.contains("description"));

    let line = tool_call_line("Bash", &js(r#"{"command": "cd /tmp\nls"}"#));
    assert_eq!(line, "tool call Bash: cd /tmp ; ls");

    let line = tool_call_line("ls", &js(r#"{}"#));
    assert_eq!(line, "tool call ls");

    let line = tool_call_line("grep", &js(r#"{"foo": "bar"}"#));
    assert_eq!(line, "tool call grep: {\"foo\":\"bar\"}");
}

#[test]
fn model_changed_renders_confirmation() {
    let mut fx = fixture();
    event(&mut fx, ServerEvent::ModelChanged {
            model: "gpt-b".into(),
        });
    fx.draw();
    assert_eq!(fx.app.model, "gpt-b");
    assert_eq!(count_rows_containing(&fx, "Model changed: gpt-b"), 1);
}

#[test]
fn status_and_error_render() {
    let mut fx = fixture();
    event(&mut fx, chunk(OutputChunk::Status("working…".into())));
    event(&mut fx, chunk(OutputChunk::Error("it broke".into())));
    fx.draw();
    assert_eq!(count_rows_containing(&fx, "working…"), 1);
    assert_eq!(count_rows_containing(&fx, "it broke"), 1);
}

#[test]
fn model_list_renders_and_marks_current() {
    let mut fx = fixture();
    event(&mut fx, ServerEvent::ModelList {
            models: vec!["gpt-a".into(), "gpt-b".into()],
        });
    fx.draw();
    assert_eq!(count_rows_containing(&fx, "Available models"), 1);
    assert_eq!(count_rows_containing(&fx, "gpt-a"), 1);
    assert_eq!(count_rows_containing(&fx, "gpt-b"), 1);
}

#[test]
fn streaming_block_id_reused_across_deltas() {
    let mut fx = fixture();
    event(&mut fx, chunk(OutputChunk::TextDelta("a".into())));
    let id: usize = fx.streaming.block_id.expect("block created");
    event(&mut fx, chunk(OutputChunk::TextDelta("b".into())));
    assert_eq!(fx.streaming.block_id, Some(id));
    event(&mut fx, chunk(OutputChunk::TextDelta("c".into())));
    fx.draw();
    assert_eq!(count_rows_containing(&fx, "abc"), 1);
}

#[test]
fn textdelta_after_textcomplete_ignored() {
    let mut fx = fixture();
    event(&mut fx, chunk(OutputChunk::TextDelta("final".into())));
    event(&mut fx, chunk(OutputChunk::TextComplete("final".into())));
    event(&mut fx, chunk(OutputChunk::TextDelta("late".into())));
    fx.draw();
    assert_eq!(count_rows_containing(&fx, "late"), 1);
    assert_eq!(count_rows_containing(&fx, "final"), 1);
    assert!(!fx.streaming.finalized);
}

#[test]
fn done_without_any_textdelta_is_noop() {
    let mut fx = fixture();
    event(&mut fx, chunk(OutputChunk::Done));
    fx.draw();
    assert!(fx.streaming.block_id.is_none());
    assert!(fx.streaming.buf.is_empty());
    assert!(!fx.streaming.finalized);
}

#[test]
fn two_dones_are_idempotent() {
    let mut fx = fixture();
    event(&mut fx, chunk(OutputChunk::TextDelta("hi".into())));
    event(&mut fx, chunk(OutputChunk::Done));
    assert!(!fx.streaming.finalized); // reset already
    event(&mut fx, chunk(OutputChunk::Done));
    fx.draw();
    assert_eq!(count_rows_containing(&fx, "hi"), 1);
}

#[test]
fn tool_events_render_after_done() {
    let mut fx = fixture();
    event(&mut fx, chunk(OutputChunk::TextDelta("text".into())));
    event(&mut fx, chunk(OutputChunk::Done));
    event(&mut fx, chunk(OutputChunk::ToolStart {
            id: "t2".into(),
            name: "Bash".into(),
            input: js(r#"{"command": "ls"}"#),
        }));
    event(&mut fx, chunk(OutputChunk::ToolEnd {
            id: "t2".into(),
            name: "Bash".into(),
            input: js(r#"{"command": "ls"}"#),
            result: ToolResultWire {
                text: "done".into(),
                is_error: false,
                content: None,
            },
        }));
    fx.draw();
    assert_eq!(count_rows_containing(&fx, "tool call Bash: ls"), 1);
    assert_eq!(count_rows_containing(&fx, "done"), 1);
}

#[test]
fn textcomplete_without_prior_delta_creates_block() {
    let mut fx = fixture();
    event(&mut fx, chunk(OutputChunk::TextDelta("only".into())));
    event(&mut fx, chunk(OutputChunk::TextComplete("only".into())));
    fx.draw();
    assert_eq!(count_rows_containing(&fx, "only"), 1);
    assert!(fx.streaming.finalized);
}

#[test]
fn textdelta_after_done_starts_new_block() {
    let mut fx = fixture();
    event(&mut fx, chunk(OutputChunk::TextDelta("before".into())));
    event(&mut fx, chunk(OutputChunk::Done));
    event(&mut fx, chunk(OutputChunk::TextDelta("after".into())));
    fx.draw();
    assert_eq!(count_rows_containing(&fx, "before"), 1);
    assert_eq!(count_rows_containing(&fx, "after"), 1);
}

#[test]
fn fifty_rapid_textdeltas_accumulate() {
    let mut fx = fixture();
    let mut expected = String::new();
    for i in 0..50 {
        let s = format!("chunk{i} ");
        expected.push_str(&s);
        event(&mut fx, chunk(OutputChunk::TextDelta(s)));
    }
    event(&mut fx, chunk(OutputChunk::Done));
    fx.draw();
    let all_rendered = fx.rows.join(" ");
    assert!(all_rendered.contains("chunk0"), "missing chunk0");
    assert!(all_rendered.contains("chunk49"), "missing chunk49");
    assert_eq!(all_rendered.matches("chunk0").count(), 1);
}

#[test]
fn textcomplete_before_done_leaves_streaming_stuck() {
    let mut fx = fixture();
    event(&mut fx, chunk(OutputChunk::TextDelta("partial".into())));
    event(&mut fx, chunk(OutputChunk::TextComplete("corrected".into())));
    event(&mut fx, chunk(OutputChunk::Done));
    fx.draw();

    assert!(
        !fx.streaming.finalized,
        "TextComplete before Done leaves streaming untouched — Done never resets"
    );
    event(&mut fx, chunk(OutputChunk::TextDelta("turn2".into())));
    fx.draw();
    assert!(
        count_rows_containing(&fx, "turn2") > 0,
        "turn2 text dropped because streaming was stuck"
    );
}

#[test]
fn clear_during_streaming_orphans_the_block() {
    let mut fx = fixture();
    event(&mut fx, chunk(OutputChunk::TextDelta("before-clear".into())));
    let id_before = fx.streaming.block_id;
    assert!(id_before.is_some());

    fx.screen.clear_output();
    fx.draw();

    event(&mut fx, chunk(OutputChunk::TextDelta("after-clear".into())));
    event(&mut fx, chunk(OutputChunk::Done));
    fx.draw();

    assert!(
        count_rows_containing(&fx, "after-clear") > 0,
        "clear during streaming orphans the streaming block — text is invisible"
    );
}

#[test]
fn new_session_during_streaming_orphans_the_block() {
    let mut fx = fixture();
    event(&mut fx, chunk(OutputChunk::TextDelta("old-session".into())));
    assert!(fx.streaming.block_id.is_some());

    line(&mut fx, "/new fresh");
    fx.draw();

    event(&mut fx, chunk(OutputChunk::TextDelta("new-text".into())));
    event(&mut fx, chunk(OutputChunk::Done));
    fx.draw();

    assert!(
        count_rows_containing(&fx, "new-text") > 0,
        "new-session during streaming orphans the block — text is invisible"
    );
}

#[test]
fn textcomplete_without_done_blocks_next_turn() {
    let mut fx = fixture();
    event(&mut fx, chunk(OutputChunk::TextDelta("turn1".into())));
    event(&mut fx, chunk(OutputChunk::TextComplete("turn1".into())));
    assert!(fx.streaming.finalized);
    event(&mut fx, chunk(OutputChunk::TextDelta("turn2".into())));
    fx.draw();
    assert!(
        count_rows_containing(&fx, "turn2") > 0,
        "TextComplete without Done blocks next turn's TextDelta"
    );
}

#[test]
fn done_resets_for_next_turn() {
    let mut fx = fixture();
    event(&mut fx, chunk(OutputChunk::TextDelta("first".into())));
    event(&mut fx, chunk(OutputChunk::Done));
    assert!(!fx.streaming.finalized);
    assert!(fx.streaming.block_id.is_none());
    event(&mut fx, chunk(OutputChunk::TextDelta("second".into())));
    fx.draw();
    assert_eq!(count_rows_containing(&fx, "second"), 1);
}

#[test]
fn process_line_empty_sends_empty_run() {
    let mut fx = fixture();
    let outcome = line(&mut fx, "");
    assert!(
        !matches!(fx.take_cmd(), Ok(DaemonCmd::Run { ref content, .. }) if content.is_empty()),
        "process_line on empty string sends Run with empty content"
    );
    assert_eq!(outcome, LineOutcome::Continue);
}

#[test]
fn whitespace_only_sends_run() {
    let mut fx = fixture();
    line(&mut fx, "   ");
    assert!(
        !matches!(fx.take_cmd(), Ok(DaemonCmd::Run { .. })),
        "whitespace-only line sends Run command"
    );
}

#[test]
fn set_block_after_clear_does_not_render() {
    let mut fx = fixture();
    let id = fx
        .screen
        .print_output(StyledBlock::new(StyledText::of(Span::new("hello".to_string(),
            s_assistant(),
        ))));
    fx.draw();
    assert_eq!(count_rows_containing(&fx, "hello"), 1);
    fx.screen.clear_output();
    fx.draw();
    assert_eq!(count_rows_containing(&fx, "hello"), 0);
    fx.screen.set_block(
        id,
        StyledBlock::new(StyledText::of(Span::new("ghost".to_string(), s_assistant()))),
    );
    fx.draw();
    assert!(
        count_rows_containing(&fx, "ghost") > 0,
        "set_block after clear does not render — block exists but has no zone"
    );
}

#[test]
fn print_output_after_clear_renders() {
    let mut fx = fixture();
    fx.screen.clear_output();
    fx.draw();
    fx.screen
        .print_output(StyledBlock::new(StyledText::of(Span::new("fresh".to_string(),
            s_assistant(),
        ))));
    fx.draw();
    assert_eq!(count_rows_containing(&fx, "fresh"), 1);
}

#[test]
fn two_consecutive_clears_noop() {
    let mut fx = fixture();
    fx.screen
        .print_output(StyledBlock::new(StyledText::of(Span::new("x".to_string(),
            s_assistant(),
        ))));
    fx.screen.clear_output();
    fx.screen.clear_output();
    fx.draw();
    fx.screen
        .print_output(StyledBlock::new(StyledText::of(Span::new("ok".to_string(),
            s_assistant(),
        ))));
    fx.draw();
    assert_eq!(count_rows_containing(&fx, "ok"), 1);
}

#[test]
fn model_with_no_argument_shows_error() {
    let mut fx = fixture();
    line(&mut fx, "/model");
    fx.draw();
    assert_eq!(count_rows_containing(&fx, "Usage: /model"), 1);
    assert!(!matches!(
        fx.take_cmd(),
        Ok(DaemonCmd::SetModel { .. })
    ));
}

#[test]
fn two_turns_with_clear_between() {
    let mut fx = fixture();
    event(&mut fx, chunk(OutputChunk::TextDelta("turn1".into())));
    event(&mut fx, chunk(OutputChunk::Done));
    fx.draw();
    fx.screen.clear_output();
    fx.draw();
    event(&mut fx, chunk(OutputChunk::TextDelta("turn2".into())));
    event(&mut fx, chunk(OutputChunk::Done));
    fx.draw();
    assert_eq!(count_rows_containing(&fx, "turn1"), 0);
    assert_eq!(count_rows_containing(&fx, "turn2"), 1);
}

#[test]
fn clear_emits_clear_screen_escape() {
    let mut fx = fixture();
    fx.screen.clear_output();
    fx.draw();
    let out = fx.written.clone();
    assert!(
        out.windows(4).any(|w| w == b"\x1b[3J"),
        "/clear must emit clear-screen escape"
    );
}

#[test]
fn long_streaming_response_wraps_correctly() {
    let mut fx = fixture();
    let long = "x".repeat(COLS + 10);
    event(&mut fx, chunk(OutputChunk::TextDelta(long.clone())));
    event(&mut fx, chunk(OutputChunk::Done));
    fx.draw();
    assert!(transcript_contains(&fx, &long));
}

#[test]
fn model_with_extra_whitespace_works() {
    let mut fx = fixture();
    line(&mut fx, "/model   gpt-b  ");
    assert_eq!(fx.app.model, "gpt-b");
    match fx.take_cmd() {
        Ok(DaemonCmd::SetModel { model, .. }) => assert_eq!(model, "gpt-b"),
        other => panic!("expected SetModel, got {other:?}"),
    }
}

#[test]
fn two_dones_with_no_textdelta_between() {
    let mut fx = fixture();
    event(&mut fx, chunk(OutputChunk::Done));
    event(&mut fx, chunk(OutputChunk::Done));
    assert!(!fx.streaming.finalized);
    assert!(fx.streaming.block_id.is_none());
    assert!(fx.streaming.buf.is_empty());
    event(&mut fx, chunk(OutputChunk::TextDelta("next".into())));
    assert!(fx.streaming.block_id.is_some());
}

#[test]
fn empty_textdelta_does_not_create_block() {
    let mut fx = fixture();
    event(&mut fx, chunk(OutputChunk::TextDelta(String::new())));
    fx.draw();
    assert!(
        fx.streaming.block_id.is_none(),
        "empty TextDelta should not allocate a streaming block"
    );
}

#[test]
fn late_textcomplete_after_done_creates_duplicate() {
    let mut fx = fixture();
    event(&mut fx, chunk(OutputChunk::TextDelta("streaming version".into())));
    event(&mut fx, chunk(OutputChunk::Done));
    event(&mut fx, chunk(OutputChunk::TextComplete("corrected version".into())));
    fx.draw();
    assert_eq!(count_rows_containing(&fx, "streaming version"), 1);
    assert_eq!(count_rows_containing(&fx, "corrected version"), 0);
    assert!(!fx.streaming.finalized);
}

#[test]
fn spurious_extra_done_does_not_create_extra_blocks() {
    let mut fx = fixture();
    event(&mut fx, chunk(OutputChunk::TextDelta("data".into())));
    let block_count_before = count_rows_containing(&fx, "data");
    event(&mut fx, chunk(OutputChunk::Done));
    event(&mut fx, chunk(OutputChunk::Done));
    fx.draw();
    assert_eq!(
        count_rows_containing(&fx, "data"),
        block_count_before + 1,
        "spurious Done created extra blocks"
    );
}

#[test]
fn slash_prefix_unintentionally_caught_as_command() {
    let mut fx = fixture();
    line(&mut fx, "/home/user/file.txt");
    match fx.take_cmd() {
        Ok(DaemonCmd::Run { content, .. }) => {
            assert_eq!(
                content, "/home/user/file.txt",
                "Message starting with '/' should be sent as input, not treated as a command"
            );
        }
        other => {
            assert!(
                false,
                "'/home/user/file.txt' was treated as a slash command, got {other:?}"
            );
        }
    }
}

#[test]
fn interrupt_during_streaming_does_not_orphan() {
    let mut fx = fixture();
    event(&mut fx, chunk(OutputChunk::TextDelta("pre-interrupt".into())));
    let bid = fx.streaming.block_id;
    assert!(bid.is_some());
    line(&mut fx, "/interrupt");
    event(&mut fx, chunk(OutputChunk::TextDelta(" post-interrupt".into())));
    event(&mut fx, chunk(OutputChunk::Done));
    fx.draw();
    assert!(
        transcript_contains(&fx, "pre-interrupt post-interrupt"),
        "interrupt during streaming should not orphan the streaming block"
    );
}

#[test]
fn toolend_ok_empty_text_is_silent() {
    let mut fx = fixture();
    event(&mut fx, chunk(OutputChunk::ToolStart {
            id: "t1".into(),
            name: "run".into(),
            input: js(r#"{"command": "true"}"#),
        }));
    fx.draw();
    assert!(
        count_rows_containing(&fx, "tool call run") > 0,
        "ToolStart text not found"
    );
    assert!(
        count_rows_containing(&fx, "done") == 0,
        "'done' should not appear before ToolEnd"
    );
    event(&mut fx, chunk(OutputChunk::ToolEnd {
            id: "t1".into(),
            name: "run".into(),
            input: js(r#"{"command": "true"}"#),
            result: ToolResultWire {
                text: String::new(),
                is_error: false,
                content: None,
            },
        }));
    fx.draw();
    assert!(
        count_rows_containing(&fx, "done") > 0,
        "ToolEnd with Ok and empty text is silent — user doesn't know it finished"
    );
}

#[test]
fn empty_textcomplete_then_done_stucks_streaming() {
    let mut fx = fixture();
    event(&mut fx, chunk(OutputChunk::TextComplete(String::new())));
    event(&mut fx, chunk(OutputChunk::Done));
    event(&mut fx, chunk(OutputChunk::TextDelta("should appear".into())));
    fx.draw();
    assert!(
        transcript_contains(&fx, "should appear"),
        "empty TextComplete then Done locks streaming; next TextDelta dropped"
    );
}

#[test]
fn cache_stats_update_accumulates() {
    let mut cs = CacheStats::default();
    cs.update(100, 50, 40, 10);
    assert_eq!(cs.request_count, 1);
    assert_eq!(cs.total_input_tokens, 100);
    assert_eq!(cs.total_cache_read_tokens, 40);
    assert_eq!(cs.total_cache_creation_tokens, 10);
}

#[test]
fn cache_stats_multiple_updates_cumulative() {
    let mut cs = CacheStats::default();
    cs.update(100, 50, 40, 10);
    cs.update(200, 100, 160, 30);
    assert_eq!(cs.request_count, 2);
    assert_eq!(cs.total_input_tokens, 300);
    assert_eq!(cs.total_cache_read_tokens, 200);
    assert_eq!(cs.total_cache_creation_tokens, 40);
}

#[test]
fn cache_bar_shows_no_requests_when_empty() {
    let cs = CacheStats::default();
    let block = cs.to_status_block(80, &figures(&cs));
    let text: String = block
        .content
        .spans()
        .iter()
        .map(|s| s.text.as_str())
        .collect();
    assert!(
        text.contains("cache:"),
        "default bar should show cache prefix"
    );
}

#[test]
fn cache_bar_shows_percentage_after_update() {
    let mut cs = CacheStats::default();
    cs.update(1000, 500, 500, 100);
    let block = cs.to_status_block(80, &figures(&cs));
    let text: String = block
        .content
        .spans()
        .iter()
        .map(|s| s.text.as_str())
        .collect();
    assert!(text.contains("50.0%"), "bar should show 50.0% hit rate");
    assert!(
        text.contains("500") || text.contains("0.5"),
        "bar should reference cached tokens"
    );
}

#[test]
fn cache_bar_displays_perfect_hit_rate() {
    let mut cs = CacheStats::default();
    cs.update(1000, 500, 1000, 0);
    let block = cs.to_status_block(80, &figures(&cs));
    let text: String = block
        .content
        .spans()
        .iter()
        .map(|s| s.text.as_str())
        .collect();
    assert!(text.contains("100.0%"), "100% hit rate should show 100.0%");
    assert!(text.contains("CH100.0%") || text.contains("CH 100.0%"));
}

#[test]
fn cache_bar_displays_zero_hit_rate() {
    let mut cs = CacheStats::default();
    cs.update(1000, 500, 0, 1000);
    let block = cs.to_status_block(80, &figures(&cs));
    let text: String = block
        .content
        .spans()
        .iter()
        .map(|s| s.text.as_str())
        .collect();
    assert!(text.contains("0.0%"), "0% hit rate should show 0.0%");
    assert!(text.contains("CH"));
}

#[test]
fn cache_bar_fill_never_exceeds_bar_width() {
    let mut cs = CacheStats::default();
    cs.update(100, 50, 200, 0); // more read than input \u{2014} shouldn't happen
    let block = cs.to_status_block(80, &figures(&cs));
    let text: String = block
        .content
        .spans()
        .iter()
        .map(|s| s.text.as_str())
        .collect();
    assert!(!text.is_empty());
}

#[test]
fn cache_bar_width_scales_with_terminal_width() {
    let mut cs = CacheStats::default();
    cs.update(1000, 500, 500, 100);

    let block_narrow = cs.to_status_block(50, &figures(&cs));
    let text_n: String = block_narrow
        .content
        .spans()
        .iter()
        .map(|s| s.text.as_str())
        .collect();

    let block_wide = cs.to_status_block(120, &figures(&cs));
    let text_w: String = block_wide
        .content
        .spans()
        .iter()
        .map(|s| s.text.as_str())
        .collect();

    assert_eq!(text_n, text_w, "format should be width-independent");
}

#[test]
fn cache_bar_shows_arrows_and_labels() {
    let mut cs = CacheStats::default();
    cs.update(100, 50, 30, 10);
    let block = cs.to_status_block(80, &figures(&cs));
    let text: String = block
        .content
        .spans()
        .iter()
        .map(|s| s.text.as_str())
        .collect();
    assert!(text.contains('↑'), "should show up arrow for input");
    assert!(text.contains('↓'), "should show down arrow for output");
    assert!(text.contains('R'), "should show R for cache read");
    assert!(text.contains("CH"), "should show CH for cache hit rate");
    assert!(text.contains("100"), "should show input count");
    assert!(text.contains("50"), "should show output count");
}

#[test]
fn cache_bar_always_uses_hit_color_regardless_of_rate() {
    let mut cs = CacheStats::default();
    cs.update(100, 50, 0, 100);
    let block = cs.to_status_block(80, &figures(&cs));
    let span = &block.content.spans()[0];
    assert!(
        span.style.fg == Some(Colour::Green),
        "bar always green even at 0% hit rate — should vary by hit rate"
    );
}

#[test]
fn cache_bar_text_is_stale_after_resize_without_telemetry() {
    let mut cs = CacheStats::default();
    cs.update(1000, 500, 500, 100);

    let block_50 = cs.to_status_block(50, &figures(&cs));
    let text_50: String = block_50
        .content
        .spans()
        .iter()
        .map(|s| s.text.as_str())
        .collect();

    let block_120 = cs.to_status_block(120, &figures(&cs));
    let text_120: String = block_120
        .content
        .spans()
        .iter()
        .map(|s| s.text.as_str())
        .collect();

    assert_eq!(text_50, text_120, "format is width-independent");
}

#[test]
fn cache_bar_text_truncates_at_min_terminal_width() {
    let mut cs = CacheStats::default();
    cs.update(100, 50, 50, 10);
    let block = cs.to_status_block(40, &figures(&cs));
    let text: String = block
        .content
        .spans()
        .iter()
        .map(|s| s.text.as_str())
        .collect();
    assert!(text.contains('↑'), "should show up arrow at min width");
    assert!(
        text.contains('%'),
        "bar must show percentage even at min width"
    );
}

#[test]
fn cache_bar_renders_on_cache_telemetry_event() {
    let mut fx = fixture();
    event(&mut fx, chunk(OutputChunk::CacheTelemetry {
            input_tokens: 100,
            output_tokens: 50,
            cache_read_tokens: 50,
            cache_creation_tokens: 10,
        }));
    fx.draw();
    assert_eq!(count_rows_containing(&fx, "cache:"), 1);
    assert!(transcript_contains(&fx, "50.0%"));
    assert_eq!(fx.app.cache.request_count, 1);
}

#[test]
fn cache_bar_accumulates_across_multiple_telemetry_events() {
    let mut fx = fixture();
    event(&mut fx, chunk(OutputChunk::CacheTelemetry {
            input_tokens: 100,
            output_tokens: 50,
            cache_read_tokens: 80,
            cache_creation_tokens: 10,
        }));
    event(&mut fx, chunk(OutputChunk::CacheTelemetry {
            input_tokens: 200,
            output_tokens: 100,
            cache_read_tokens: 100,
            cache_creation_tokens: 50,
        }));
    fx.draw();
    assert_eq!(fx.app.cache.request_count, 2);
    assert_eq!(fx.app.cache.total_input_tokens, 300);
    assert_eq!(fx.app.cache.total_cache_read_tokens, 180);
}

#[test]
fn cache_bar_survives_clear_output() {
    let mut fx = fixture();
    event(&mut fx, chunk(OutputChunk::CacheTelemetry {
            input_tokens: 100,
            output_tokens: 50,
            cache_read_tokens: 50,
            cache_creation_tokens: 10,
        }));
    fx.draw();
    assert!(transcript_contains(&fx, "cache:"));

    fx.screen.clear_output();
    fx.draw();
    assert!(
        transcript_contains(&fx, "cache:"),
        "cache bar disappears after /clear — status_line not preserved"
    );
}

#[test]
fn cache_bar_survives_new_session_command() {
    let mut fx = fixture();
    event(&mut fx, chunk(OutputChunk::CacheTelemetry {
            input_tokens: 100,
            output_tokens: 50,
            cache_read_tokens: 50,
            cache_creation_tokens: 10,
        }));
    fx.draw();
    assert!(transcript_contains(&fx, "cache:"));

    fx.screen.clear_output();
    fx.app.session_id = "sess-2".to_string();
    fx.draw();
    assert!(
        transcript_contains(&fx, "cache:"),
        "cache bar disappears after /new — status_line not preserved across sessions"
    );
}

#[test]
fn cache_bar_shown_during_streaming() {
    let mut fx = fixture();
    event(&mut fx, chunk(OutputChunk::TextDelta("hello ".into())));
    event(&mut fx, chunk(OutputChunk::CacheTelemetry {
            input_tokens: 200,
            output_tokens: 100,
            cache_read_tokens: 100,
            cache_creation_tokens: 50,
        }));
    event(&mut fx, chunk(OutputChunk::TextDelta("world".into())));
    event(&mut fx, chunk(OutputChunk::Done));
    fx.draw();

    assert!(
        transcript_contains(&fx, "hello world"),
        "streaming text must be visible"
    );
    assert!(
        transcript_contains(&fx, "cache:"),
        "cache bar must be visible even during streaming"
    );
}

#[test]
fn cache_bar_compaction_resets_stats_and_refreshes() {
    let mut fx = fixture();
    event(&mut fx, chunk(OutputChunk::CacheTelemetry {
            input_tokens: 1000,
            output_tokens: 500,
            cache_read_tokens: 800,
            cache_creation_tokens: 200,
        }));
    fx.draw();
    assert_eq!(fx.app.cache.request_count, 1);
    assert!(transcript_contains(&fx, "cache:"));

    event(&mut fx, ServerEvent::SessionCompacted {
            session_id: "sess-1".to_string(),
        });
    fx.draw();
    assert_eq!(fx.app.cache.request_count, 0);
    assert!(
        transcript_contains(&fx, "cache:"),
        "after compaction cache bar should reset to empty state"
    );
}

#[test]
fn cache_bar_with_tool_events_interleaved() {
    let mut fx = fixture();
    event(&mut fx, chunk(OutputChunk::ToolStart {
            id: "t1".into(),
            name: "bash".into(),
            input: js(r#"{"command": "echo hi"}"#),
        }));
    event(&mut fx, chunk(OutputChunk::CacheTelemetry {
            input_tokens: 50,
            output_tokens: 25,
            cache_read_tokens: 10,
            cache_creation_tokens: 5,
        }));
    event(&mut fx, chunk(OutputChunk::ToolEnd {
            id: "t1".into(),
            name: "bash".into(),
            input: js(r#"{"command": "echo hello"}"#),
            result: ToolResultWire {
                text: "done".into(),
                is_error: false,
                content: None,
            },
        }));
    fx.draw();
    assert!(
        transcript_contains(&fx, "tool call bash"),
        "tool must render"
    );
    assert!(transcript_contains(&fx, "done"), "tool end must render");
    assert!(
        transcript_contains(&fx, "cache:"),
        "cache bar must render even with interleaved tool events"
    );
}

#[test]
fn user_input_with_newline_characters() {
    let mut fx = fixture();
    line(&mut fx, "first\nsecond");
    match fx.take_cmd() {
        Ok(DaemonCmd::Run { content, .. }) => assert_eq!(content, "first\nsecond"),
        other => panic!("expected Run, got {other:?}"),
    }
}

#[test]
fn slash_commands_with_trailing_spaces() {
    let mut fx = fixture();
    let outcome = line(&mut fx, "/help  ");
    assert_eq!(outcome, LineOutcome::Continue);
    fx.draw();
    assert_eq!(count_rows_containing(&fx, "Available commands"), 1);
}

#[test]
fn slash_commands_with_mixed_case() {
    let mut fx = fixture();
    line(&mut fx, "/HELP");
    match fx.take_cmd() {
        Ok(DaemonCmd::Run { content, .. }) => assert_eq!(content, "/HELP"),
        other => panic!("expected Run for unknown cmd, got {other:?}"),
    }
}

#[test]
fn new_with_spaces_in_name() {
    let mut fx = fixture();
    line(&mut fx, "/new my session name");
    assert_eq!(fx.app.session_id, "my");
}

#[test]
fn resume_with_spaces_in_id() {
    let mut fx = fixture();
    line(&mut fx, "/resume session-id extra");
    assert_eq!(fx.app.session_id, "session-id");
    match fx.take_cmd() {
        Ok(DaemonCmd::Resume(sid)) => assert_eq!(sid, "session-id"),
        other => panic!("expected Resume, got {other:?}"),
    }
}

#[test]
fn interrupt_before_any_streaming_does_not_panic() {
    let mut fx = fixture();
    line(&mut fx, "/interrupt");
    match fx.take_cmd() {
        Ok(DaemonCmd::Interrupt(sid)) => assert_eq!(sid, "sess-1"),
        other => panic!("expected Interrupt, got {other:?}"),
    }
}

#[test]
fn a_prefix_is_completed_to_the_first_command() {
    assert_eq!(complete("/mo").as_deref(), Some("/model "));
    assert_eq!(complete("/comp").as_deref(), Some("/compact "));
    assert_eq!(complete("/zzz"), None);
    assert_eq!(complete("hello"), None);
}

#[test]
fn fresh_names_are_eight_hex_digits() {
    let name = fresh_name();
    assert_eq!(name.len(), 8);
    assert!(name.chars().all(|c| c.is_ascii_hexdigit()));
    let first = first_session();
    assert!(first.starts_with("tui-"));
    assert_eq!(first.len(), 12);
    assert_ne!(fresh_name(), fresh_name());
}

#[test]
fn tokens_are_scaled() {
    assert_eq!(tokens(999), "999");
    assert_eq!(tokens(1500), "1.5k");
    assert_eq!(tokens(25_000), "25k");
    assert_eq!(tokens(2_500_000), "2.5m");
    assert_eq!(tokens(25_000_000), "25m");
}

#[test]
fn the_status_line_is_written_out() {
    let mut cs = CacheStats::default();
    assert_eq!(text_of(&cs.to_status_block(80, &figures(&cs))), " cache: \u{2014}");
    cs.update(1500, 20, 750, 0);
    assert_eq!(
        text_of(&cs.to_status_block(80, &figures(&cs))),
        " cache: \u{2191}1.5k \u{2193}20 R750 CH 50.0%"
    );
}

#[test]
fn wide_text_is_cut() {
    assert_eq!(truncate_to_width("abcdef", 10), "abcdef");
    assert_eq!(truncate_to_width("abcdef", 4), "abc\u{2026}");
}

#[test]
fn saved_files_are_named_and_reported() {
    assert_eq!(saved_name("report.txt", 17), "report.txt-17");
    let mut fx = fixture();
    report_transfer(&mut fx.screen, Ok("/tmp/report.txt".to_string()));
    report_transfer(&mut fx.screen, Err("disk full".to_string()));
    fx.draw();
    assert!(transcript_contains(&fx, "/tmp/report.txt"));
    assert!(transcript_contains(&fx, "disk full"));
}
