//! The loop of the terminal client: one event at a time.

use picrust::daemon_events::{OutputChunk, ServerEvent};
use picrust::json::parse;
use picrust::style::StyledBlock;
use picrust::terminal::{CacheFigures, CacheStats, DaemonCmd};
use picrust::terminal_loop::{
    command_request, daemon_step, AppEvent, Client, Step, TaskAction, TaskInput, CLOSED_PAUSE_MS,
    ERROR_PAUSE_MS, RECEIVE_TIMEOUT_MS, STATUS_TIMEOUT_MS,
};

const COLS: usize = 40;

/// A running client: the commands that it sent, and the time that has passed
/// since the last ping.
struct LoopFixture {
    client: Client,
    commands: Vec<DaemonCmd>,
    limit_ms: u64,
    quit: bool,
}

fn loop_fixture() -> LoopFixture {
    LoopFixture {
        client: Client::new("sess-1".to_string(), "gpt-a".to_string(), COLS),
        commands: Vec::new(),
        limit_ms: 100,
        quit: false,
    }
}

fn text_of(block: &StyledBlock) -> String {
    block.content.spans().iter().map(|s| s.text.as_str()).collect()
}

fn figures(cs: &CacheStats) -> CacheFigures {
    let rate = if cs.total_input_tokens == 0 {
        0.0
    } else {
        cs.total_cache_read_tokens as f64 / cs.total_input_tokens as f64 * 100.0
    };
    CacheFigures {
        input: cs.total_input_tokens.to_string(),
        output: cs.total_output_tokens.to_string(),
        read: cs.total_cache_read_tokens.to_string(),
        rate: format!("{:5.1}", rate),
    }
}

impl LoopFixture {
    fn send(&mut self, event: AppEvent) -> Step {
        let step = self.client.step(event, &mut self.commands, self.limit_ms);
        if let Some(width) = step.redraw_status {
            let cache = self.client.app.cache;
            let block = cache.to_status_block(width, &figures(&cache));
            self.client.screen.set_status_line(block);
        }
        self.quit = self.quit || step.quit;
        step
    }

    fn rows(&self) -> Vec<String> {
        let mut rows = Vec::new();
        let status = self.client.screen.status.iter();
        for block in self.client.screen.blocks.iter().flatten().chain(status) {
            for line in text_of(block).lines() {
                let chars: Vec<char> = line.chars().collect();
                for part in chars.chunks(self.client.screen.width) {
                    rows.push(part.iter().collect::<String>());
                }
            }
        }
        rows
    }

    fn count(&self, needle: &str) -> usize {
        self.rows().iter().filter(|l| l.contains(needle)).count()
    }

    fn transcript_contains(&self, needle: &str) -> bool {
        self.rows().join("").contains(needle)
    }
}

fn chunk(c: OutputChunk) -> AppEvent {
    AppEvent::Daemon(ServerEvent::Chunk { session_id: "sess-1".to_string(), chunk: c })
}

fn telemetry(input: u32, output: u32, read: u32, created: u32) -> AppEvent {
    chunk(OutputChunk::CacheTelemetry {
        input_tokens: input,
        output_tokens: output,
        cache_read_tokens: read,
        cache_creation_tokens: created,
    })
}

fn models(names: &[&str]) -> AppEvent {
    AppEvent::Daemon(ServerEvent::ModelList {
        models: names.iter().map(|s| s.to_string()).collect(),
    })
}

#[test]
fn daemon_events_render_without_keypresses() {
    let mut fx = loop_fixture();
    fx.send(chunk(OutputChunk::TextDelta("streamed".into())));
    fx.send(chunk(OutputChunk::Done));
    assert!(!fx.quit);
    fx.send(AppEvent::Eof);
    assert!(fx.quit);
    assert_eq!(fx.count("streamed"), 1);
}

#[test]
fn status_reports_connected() {
    let mut fx = loop_fixture();
    let step = fx.send(AppEvent::Line("/status".to_string()));
    assert!(step.arm_timer);
    fx.send(models(&["gpt-a", "gpt-b"]));
    fx.send(AppEvent::Eof);
    assert!(matches!(fx.commands[0], DaemonCmd::ListModels));
    assert_eq!(fx.count("omega-loop connection OK"), 1);
    assert!(fx.transcript_contains("session: sess-1"));
    assert!(fx.transcript_contains("model: gpt-a"));
}

#[test]
fn status_timeout_reports_dead_connection() {
    let mut fx = loop_fixture();
    fx.send(AppEvent::Line("/status".to_string()));
    fx.send(AppEvent::StatusTimeout { elapsed_ms: 100 });
    fx.send(AppEvent::Eof);
    assert!(matches!(fx.commands[0], DaemonCmd::ListModels));
    assert_eq!(fx.count("no response from omega-loop"), 1);
}

#[test]
fn a_timer_of_an_earlier_ping_says_nothing() {
    let mut fx = loop_fixture();
    fx.send(AppEvent::Line("/status".to_string()));
    fx.send(AppEvent::StatusTimeout { elapsed_ms: 99 });
    assert_eq!(fx.count("no response from omega-loop"), 0);
    fx.send(models(&["gpt-a"]));
    fx.send(AppEvent::StatusTimeout { elapsed_ms: 100 });
    assert_eq!(fx.count("no response from omega-loop"), 0);
    assert_eq!(STATUS_TIMEOUT_MS, 5000);
}

#[test]
fn status_disconnected_reports_lost() {
    let mut fx = loop_fixture();
    fx.send(AppEvent::Line("/status".to_string()));
    fx.send(AppEvent::Disconnected);
    fx.send(AppEvent::Eof);
    assert_eq!(fx.count("omega-loop connection lost"), 1);
}

#[test]
fn two_turns_both_render_responses() {
    let mut fx = loop_fixture();
    fx.send(AppEvent::Line("first".to_string()));
    fx.send(chunk(OutputChunk::TextDelta("response one".into())));
    fx.send(chunk(OutputChunk::Done));
    fx.send(AppEvent::Line("second".to_string()));
    fx.send(chunk(OutputChunk::TextDelta("response two".into())));
    fx.send(chunk(OutputChunk::Done));
    fx.send(AppEvent::Eof);
    assert_eq!(fx.count("response one"), 1);
    assert_eq!(fx.count("response two"), 1);
    assert_eq!(fx.count("\u{25b8} first"), 1);
    assert_eq!(fx.count("\u{25b8} second"), 1);
}

#[test]
fn end_to_end_prompt_to_response() {
    let mut fx = loop_fixture();
    fx.send(AppEvent::Line("hello".to_string()));
    assert!(matches!(&fx.commands[0], DaemonCmd::Run { content, .. } if content == "hello"));
    fx.send(chunk(OutputChunk::TextDelta("Hi there".into())));
    fx.send(chunk(OutputChunk::Done));
    let all = fx.rows();
    let user_row = all.iter().position(|l| l.contains("\u{25b8} hello")).unwrap();
    let reply_row = all.iter().position(|l| l.contains("Hi there")).unwrap();
    assert!(user_row < reply_row, "reply must follow the prompt: {all:?}");
}

#[test]
fn streaming_blocks_follow_their_prompt() {
    let mut fx = loop_fixture();
    for (prompt_text, reply) in [("one", "first reply"), ("two", "second reply")] {
        fx.send(AppEvent::Line(prompt_text.to_string()));
        fx.send(chunk(OutputChunk::TextDelta(reply.into())));
        fx.send(chunk(OutputChunk::TextComplete(reply.into())));
        fx.client.streaming.reset();
    }
    let all = fx.rows();
    let pos = |needle: &str| all.iter().position(|l| l.contains(needle)).unwrap();
    assert!(pos("\u{25b8} one") < pos("first reply"), "{all:?}");
    assert!(pos("first reply") < pos("\u{25b8} two"), "{all:?}");
    assert!(pos("\u{25b8} two") < pos("second reply"), "{all:?}");
    assert_eq!(fx.count("first reply"), 1);
    assert_eq!(fx.count("second reply"), 1);
}

#[test]
fn resize_during_streaming_preserves_text() {
    let mut fx = loop_fixture();
    fx.send(chunk(OutputChunk::TextDelta("before-resize".into())));
    let step = fx.send(AppEvent::Resize { width: 80, height: 20 });
    assert_eq!(step.redraw_status, Some(80));
    fx.send(chunk(OutputChunk::TextDelta(" after".into())));
    fx.send(chunk(OutputChunk::Done));
    assert!(fx.transcript_contains("before-resize after"));
}

#[test]
fn narrow_terminals_keep_a_wide_status_line() {
    let mut fx = loop_fixture();
    let step = fx.send(AppEvent::Resize { width: 0, height: 0 });
    assert_eq!(step.redraw_status, Some(40));
    assert_eq!(fx.client.screen.width, 1);
}

#[test]
fn paste_literal_tab_triggers_completion() {
    let mut fx = loop_fixture();
    fx.client.screen.set_buffer("/mo\t".to_string(), 4);
    fx.send(AppEvent::BufferChanged);
    assert_eq!(fx.client.screen.buffer, "/model ");
    assert_eq!(fx.client.screen.cursor, 7);
    fx.client.screen.set_buffer("/zzz\t".to_string(), 5);
    fx.send(AppEvent::BufferChanged);
    assert_eq!(fx.client.screen.buffer, "/zzz");
    assert_eq!(fx.client.screen.cursor, 4);
}

#[test]
fn cache_bar_disconnected_preserves_last_known() {
    let mut fx = loop_fixture();
    fx.send(telemetry(100, 50, 50, 10));
    fx.send(AppEvent::Disconnected);
    fx.send(AppEvent::Eof);
    assert!(fx.transcript_contains("cache:"));
}

#[test]
fn cache_bar_does_not_duplicate_on_multiple_identical_telemetry() {
    let mut fx = loop_fixture();
    fx.send(telemetry(100, 50, 50, 10));
    fx.send(telemetry(200, 100, 100, 20));
    fx.send(AppEvent::Eof);
    assert_eq!(fx.count("cache:"), 1);
}

#[test]
fn status_response_contains_cache_info_when_available() {
    let mut fx = loop_fixture();
    fx.client.app.cache.update(1000, 500, 500, 100);
    let cache = fx.client.app.cache;
    fx.client.screen.set_status_line(cache.to_status_block(COLS, &figures(&cache)));
    fx.send(AppEvent::Line("/status".to_string()));
    fx.send(models(&["gpt-a"]));
    fx.send(AppEvent::Eof);
    assert!(fx.transcript_contains("cache:"));
}

#[test]
fn rapid_cache_telemetry_and_textdelta_does_not_corrupt() {
    let mut fx = loop_fixture();
    for i in 0..20 {
        fx.send(chunk(OutputChunk::TextDelta(format!("chunk{i} "))));
        fx.send(telemetry(100 + i, 100 + i, 50 + i / 2, 10));
    }
    fx.send(chunk(OutputChunk::Done));
    fx.send(AppEvent::Eof);
    assert!(fx.transcript_contains("chunk0"));
    assert!(fx.transcript_contains("chunk19"));
    assert_eq!(fx.client.app.cache.request_count, 20);
    assert!(fx.client.app.cache.total_input_tokens > 0);
}

#[test]
fn cache_stats_default_is_empty() {
    let cs = CacheStats::default();
    assert_eq!(cs.request_count, 0);
    assert_eq!(cs.total_input_tokens, 0);
    assert_eq!(cs.total_cache_read_tokens, 0);
    assert_eq!(cs.total_cache_creation_tokens, 0);
}

#[test]
fn cache_stats_large_values_do_not_overflow() {
    let mut cs = CacheStats::default();
    for _ in 0..10 {
        cs.update(u32::MAX, u32::MAX, u32::MAX, u32::MAX);
    }
    assert_eq!(cs.total_input_tokens, 10 * (u32::MAX as u64));
    assert_eq!(cs.total_cache_read_tokens, cs.total_input_tokens);
}

#[test]
fn the_task_takes_commands_before_it_waits() {
    assert!(matches!(daemon_step(TaskInput::Ready), TaskAction::TakeCommand));
    assert!(matches!(
        daemon_step(TaskInput::Command(DaemonCmd::ListModels)),
        TaskAction::Write(DaemonCmd::ListModels)
    ));
    assert!(matches!(daemon_step(TaskInput::Written), TaskAction::TakeCommand));
    assert!(matches!(
        daemon_step(TaskInput::NoCommand),
        TaskAction::Receive { timeout_ms: RECEIVE_TIMEOUT_MS }
    ));
    assert!(matches!(daemon_step(TaskInput::Received), TaskAction::Forward));
    assert!(matches!(daemon_step(TaskInput::TimedOut), TaskAction::TakeCommand));
    assert!(matches!(daemon_step(TaskInput::ClientGone), TaskAction::Stop));
    assert!(matches!(daemon_step(TaskInput::CommandsClosed), TaskAction::Stop));
}

#[test]
fn the_task_rests_after_a_failure() {
    assert!(matches!(
        daemon_step(TaskInput::Closed),
        TaskAction::ReportGone { closed: true }
    ));
    assert!(matches!(
        daemon_step(TaskInput::WriteFailed),
        TaskAction::ReportGone { closed: false }
    ));
    assert!(matches!(
        daemon_step(TaskInput::Reported { closed: true }),
        TaskAction::Pause { ms: CLOSED_PAUSE_MS }
    ));
    assert!(matches!(
        daemon_step(TaskInput::Reported { closed: false }),
        TaskAction::TakeCommand
    ));
    assert!(matches!(
        daemon_step(TaskInput::ReadFailed),
        TaskAction::Pause { ms: ERROR_PAUSE_MS }
    ));
}

#[test]
fn commands_become_requests() {
    let run = DaemonCmd::Run { session_id: "s".to_string(), content: "hi".to_string() };
    let run = command_request(&run).unwrap();
    assert_eq!(run.text_or_empty("content"), "hi");
    assert_eq!(run.text_or_empty("session_id"), "s");
    assert!(command_request(&DaemonCmd::Shutdown).is_none());
    let set = DaemonCmd::SetModel { session_id: "s".to_string(), model: "m".to_string() };
    let text = command_request(&set).unwrap().to_text();
    let read = parse(&text).ok().unwrap();
    assert_eq!(read.text_or_empty("type"), "set_model");
    assert_eq!(read.text_or_empty("session_id"), "s");
    assert_eq!(read.text_or_empty("model"), "m");
    let compact = command_request(&DaemonCmd::Compact("s".to_string())).unwrap();
    assert_eq!(compact.text_or_empty("session_id"), "s");
}

#[test]
fn an_event_that_can_not_be_taken_changes_nothing() {
    let mut fx = loop_fixture();
    fx.send(chunk(OutputChunk::TextDelta("4294967295. last".to_string())));
    let done = || chunk(OutputChunk::Done);
    assert!(!fx.client.can_take(&done()));
    assert!(fx.client.try_step(done(), &mut fx.commands, fx.limit_ms).is_none());
    assert!(fx.transcript_contains("4294967295. last"));
    fx.client.app.cache.request_count = u64::MAX;
    assert!(!fx.client.can_take(&telemetry(1, 1, 1, 1)));
    fx.client.app.cache.request_count = 0;
    assert!(fx.client.try_step(telemetry(1, 2, 3, 4), &mut fx.commands, fx.limit_ms).is_some());
    assert_eq!(fx.client.app.cache.total_output_tokens, 2);
}

#[test]
fn the_stream_has_a_block_while_it_has_text() {
    let mut fx = loop_fixture();
    let text = |s: &str| s.to_string();
    let events = [
        chunk(OutputChunk::Done),
        chunk(OutputChunk::TextDelta(text(""))),
        chunk(OutputChunk::TextComplete(text("early"))),
        chunk(OutputChunk::TextDelta(text("a"))),
        chunk(OutputChunk::Status(text("busy"))),
        chunk(OutputChunk::TextDelta(text("b"))),
        chunk(OutputChunk::TextComplete(text("ab"))),
        chunk(OutputChunk::TextDelta(text("c"))),
        chunk(OutputChunk::Error(text("broken"))),
        chunk(OutputChunk::Done),
    ];
    for event in events {
        fx.send(event);
        let st = &fx.client.streaming;
        assert_eq!(st.block_id.is_some(), !st.buf.is_empty());
        assert!(!st.finalized || st.block_id.is_none());
    }
}
