//! How the events of the daemon change what the terminal client shows.

use vstd::prelude::*;

use crate::json;
use crate::json::{Json, JsonTree};
use crate::loop_client::{ToolResultWire, UserQuestionWire};
use crate::markdown;
use crate::paths;
use crate::style::{Span, Style, StyledBlock, StyledText};
use crate::terminal;
use crate::terminal::{
    s_assistant, s_error, s_highlight, s_system, s_thinking, s_tool, AppState, BlockModel,
    CacheStats, Screen,
};
use crate::text;

use termimad::MadSkin;

verus! {

/// An event of the daemon.
pub enum ServerEvent {
    Chunk { session_id: String, chunk: OutputChunk },
    Created { session_id: String, session_name: String },
    SessionList { sessions: Vec<String> },
    SessionResumed { session_id: String, session_name: String },
    ModelChanged { model: String },
    SessionCompacted { session_id: String },
    ModelList { models: Vec<String> },
    SystemMsg(String),
    Unknown(Json),
}

/// A piece of output.
#[allow(inconsistent_fields)]
pub enum OutputChunk {
    TextDelta(String),
    TextComplete(String),
    ThinkingDelta(String),
    ThinkingComplete(String),
    ToolStart { id: String, name: String, input: Json },
    ToolProgress { id: String, output: String },
    ToolEnd { id: String, name: String, input: Json, result: ToolResultWire },
    PermissionRequest {
        tool_name: String,
        action: String,
        input: String,
        details: Option<String>,
    },
    Status(String),
    Error(String),
    Done,
    CacheTelemetry {
        input_tokens: u32,
        output_tokens: u32,
        cache_read_tokens: u32,
        cache_creation_tokens: u32,
    },
    AskUserQuestion { request_id: String, questions: Vec<UserQuestionWire> },
    Unknown,
}

// ---------------------------------------------------------------------------
// Tool calls
// ---------------------------------------------------------------------------

/// A text cut to a number of characters: one that is longer loses its end to an
/// ellipsis.
pub open spec fn truncated(s: Seq<char>, width: int) -> Seq<char> {
    if s.len() <= width {
        s
    } else {
        s.take(width - 1).push('\u{2026}')
    }
}

/// Cuts a text to a number of characters.
pub fn truncate_to_width(s: &str, width: usize) -> (r: String)
    requires
        width > 0,
    ensures
        r@ == truncated(s@, width as int),
{
    let v = text::chars_of(s);
    if v.len() <= width {
        return s.to_owned();
    }
    let mut r = text::text_of(&v, 0, width - 1);
    assert(r@ =~= s@.take(width - 1));
    r.push('\u{2026}');
    r
}

/// The lines of a text in one row.
pub open spec fn one_row(s: Seq<char>) -> Seq<char> {
    text::joined(text::lines_of(text::trimmed(s)), " ; "@)
}

/// The fields that say best what a tool call does, the best one first.
pub open spec fn primary_keys() -> Seq<Seq<char>> {
    seq!["command"@, "path"@, "file_path"@, "pattern"@, "query"@, "url"@]
}

/// The first of some fields that holds a text with something in it, in one row.
pub open spec fn primary_value(input: JsonTree, keys: Seq<Seq<char>>) -> Option<Seq<char>>
    decreases keys.len(),
{
    if keys.len() == 0 {
        None
    } else {
        match input.text_field(keys[0]) {
            Some(s) => if one_row(s).len() > 0 {
                Some(one_row(s))
            } else {
                primary_value(input, keys.skip(1))
            },
            None => primary_value(input, keys.skip(1)),
        }
    }
}

/// A tool call in one row: its name and its most telling field, or else its
/// whole input as JSON, where there is any.
pub open spec fn call_row(name: Seq<char>, input: JsonTree) -> Seq<char> {
    let head = "tool call "@ + name;
    let all = json::printed(json::settled(input));
    match primary_value(input, primary_keys()) {
        Some(s) => head + ": "@ + truncated(s, 120),
        None => if all == "{}"@ || all == "null"@ {
            head
        } else {
            head + ": "@ + truncated(all, 120)
        },
    }
}

/// The most telling field of a tool call, in one row.
fn find_primary(input: &Json) -> (r: Option<String>)
    ensures
        match r {
            Some(s) => primary_value(input@, primary_keys()) == Some(s@),
            None => primary_value(input@, primary_keys()) is None,
        },
{
    let keys: Vec<&str> = vec!["command", "path", "file_path", "pattern", "query", "url"];
    assert(text::str_views(keys@) =~= primary_keys());
    let mut i: usize = 0;
    assert(primary_keys().skip(0) =~= primary_keys());
    while i < keys.len()
        invariant
            i <= keys.len(),
            text::str_views(keys@) == primary_keys(),
            primary_value(input@, primary_keys()) == primary_value(
                input@,
                primary_keys().skip(i as int),
            ),
        decreases keys.len() - i,
    {
        assert(text::str_views(keys@)[i as int] == keys@[i as int]@);
        assert(primary_keys().skip(i as int).skip(1) =~= primary_keys().skip(i + 1));
        if let Some(value) = input.get_text(keys[i]) {
            let value = text::trim(value.as_str());
            let row = text::join(&text::lines(value.as_str()), " ; ");
            if !row.as_str().is_empty() {
                return Some(row);
            }
        }
        i += 1;
    }
    assert(primary_keys().skip(i as int) =~= seq![]);
    None
}

/// A tool call in one row.
pub fn tool_call_line(name: &str, input: &Json) -> (r: String)
    ensures
        r@ == call_row(name@, input@),
{
    if let Some(row) = find_primary(input) {
        let row = truncate_to_width(row.as_str(), 120);
        return text::cat4("tool call ", name, ": ", row.as_str());
    }
    let all = input.to_text();
    if text::same(all.as_str(), "{}") || text::same(all.as_str(), "null") {
        text::cat2("tool call ", name)
    } else {
        let all = truncate_to_width(all.as_str(), 120);
        text::cat4("tool call ", name, ": ", all.as_str())
    }
}

// ---------------------------------------------------------------------------
// Transferred files
// ---------------------------------------------------------------------------

/// A file that the agent hands over: its name, and what it holds.
pub struct Transfer {
    pub base_name: String,
    pub text: String,
}

/// The name under which a handed-over file is saved: its own name and the
/// seconds of the clock.
pub fn saved_name(base_name: &str, timestamp: u64) -> (r: String)
    ensures
        r@ == base_name@ + "-"@ + text::decimal(timestamp as nat),
{
    text::cat3(base_name, "-", text::number(timestamp).as_str())
}

/// Shows where a handed-over file went, or why it was not saved.
pub fn report_transfer(screen: &mut Screen, saved: Result<String, String>)
    ensures
        final(screen).shown() == match saved {
            Ok(path) => terminal::with_line(
                old(screen).shown(),
                "  \u{2713} Transferred to: "@ + path@,
                s_highlight(),
            ),
            Err(e) => terminal::with_line(
                old(screen).shown(),
                "  \u{2717} Failed to save transferred file: "@ + e@,
                s_error(),
            ),
        },
        final(screen).same_frame(old(screen)),
{
    match saved {
        Ok(path) => screen.print_line(
            text::cat2("  \u{2713} Transferred to: ", path.as_str()),
            s_highlight(),
        ),
        Err(e) => screen.print_line(
            text::cat2("  \u{2717} Failed to save transferred file: ", e.as_str()),
            s_error(),
        ),
    }
}

/// The name of the file that a transfer hands over.
pub open spec fn transfer_name(input: JsonTree) -> Seq<char> {
    let path = match input.text_field("file_path"@) {
        Some(s) => s,
        None => "transferred-file"@,
    };
    match paths::file_name(path) {
        Some(s) => s,
        None => "transferred-file"@,
    }
}

/// Whether the end of a tool call hands over a file.
pub open spec fn is_transfer(name: Seq<char>, result: ToolResultWire) -> bool {
    name == "Transfer"@ && !result.is_error && result.text@.len() > 0
}

// ---------------------------------------------------------------------------
// Streaming
// ---------------------------------------------------------------------------

/// The answer that is being streamed: the block it stands in, what has come so
/// far, and whether it is complete.
pub struct Streaming {
    pub block_id: Option<usize>,
    pub buf: String,
    pub finalized: bool,
}

/// What is being streamed.
pub struct StreamModel {
    pub block_id: Option<usize>,
    pub buf: Seq<char>,
    pub finalized: bool,
}

impl View for Streaming {
    type V = StreamModel;

    open spec fn view(&self) -> StreamModel {
        StreamModel { block_id: self.block_id, buf: self.buf@, finalized: self.finalized }
    }
}

/// Nothing is being streamed.
pub open spec fn idle() -> StreamModel {
    StreamModel { block_id: None, buf: seq![], finalized: false }
}

impl Streaming {
    /// Nothing is being streamed.
    pub fn new() -> (r: Streaming)
        ensures
            r@ == idle(),
    {
        let r = Streaming { block_id: None, buf: String::new(), finalized: false };
        assert(r.buf@ =~= seq![]);
        r
    }

    /// Forgets what was streamed.
    pub fn reset(&mut self)
        ensures
            final(self)@ == idle(),
    {
        self.block_id = None;
        self.buf = String::new();
        self.finalized = false;
        assert(self.buf@ =~= seq![]);
    }
}

// ---------------------------------------------------------------------------
// Events
// ---------------------------------------------------------------------------

/// A markdown text on a screen.
pub open spec fn md_block(skin: MadSkin, md: Seq<char>, width: usize) -> BlockModel {
    markdown::rendered(skin, md, terminal::wrap_width(width))
}

/// The blocks with one line behind them for each line of a text.
pub open spec fn with_progress(blocks: Seq<Option<BlockModel>>, lines: Seq<Seq<char>>) -> Seq<
    Option<BlockModel>,
>
    decreases lines.len(),
{
    if lines.len() == 0 {
        blocks
    } else {
        terminal::with_line(
            with_progress(blocks, lines.drop_last()),
            "  "@ + lines.last(),
            s_tool(),
        )
    }
}

/// Whether a stream is sound: it has a block exactly where it has text, and one whose
/// text was completed has neither.
pub open spec fn sound(st: StreamModel) -> bool {
    &&& st.block_id is Some <==> st.buf.len() > 0
    &&& st.finalized ==> st.block_id is None && st.buf.len() == 0
}

/// What the stream becomes by a piece of output. `next` is the place of the
/// next block.
pub open spec fn stream_after(chunk: OutputChunk, was: StreamModel, next: int) -> StreamModel {
    match chunk {
        OutputChunk::TextDelta(s) => if s@.len() == 0 {
            was
        } else {
            let open = if was.finalized {
                idle()
            } else {
                was
            };
            StreamModel {
                block_id: Some(
                    match open.block_id {
                        Some(id) => id,
                        None => next as usize,
                    },
                ),
                buf: open.buf + s@,
                finalized: false,
            }
        },
        OutputChunk::TextComplete(s) => if was.block_id is Some {
            StreamModel { block_id: None, buf: seq![], finalized: true }
        } else {
            was
        },
        OutputChunk::Done => idle(),
        _ => was,
    }
}

/// What the blocks become by a piece of output.
pub open spec fn blocks_after(
    chunk: OutputChunk,
    was: StreamModel,
    blocks: Seq<Option<BlockModel>>,
    width: usize,
    skin: MadSkin,
) -> Seq<Option<BlockModel>> {
    match chunk {
        OutputChunk::TextDelta(s) => if s@.len() == 0 {
            blocks
        } else {
            let open = if was.finalized {
                idle()
            } else {
                was
            };
            let block = seq![(open.buf + s@, s_assistant())];
            match open.block_id {
                Some(id) => terminal::rewritten(blocks, id as int, block),
                None => terminal::with_block(blocks, block),
            }
        },
        OutputChunk::TextComplete(s) => match was.block_id {
            Some(id) => terminal::rewritten(blocks, id as int, md_block(skin, s@, width)),
            None => blocks,
        },
        OutputChunk::ThinkingDelta(s) => terminal::with_line(blocks, s@, s_thinking()),
        OutputChunk::ThinkingComplete(s) => if s@.len() == 0 {
            blocks
        } else {
            terminal::with_line(blocks, s@, s_thinking())
        },
        OutputChunk::ToolStart { name, input, .. } => terminal::with_line(
            blocks,
            call_row(name@, input@),
            s_tool(),
        ),
        OutputChunk::ToolProgress { output, .. } => with_progress(blocks, text::lines_of(output@)),
        OutputChunk::ToolEnd { name, result, .. } => if is_transfer(name@, result) {
            blocks
        } else if result.is_error {
            terminal::with_line(blocks, "  \u{2717} "@ + result.text@, s_error())
        } else if result.text@.len() > 0 {
            terminal::with_line(blocks, "  \u{2713} "@ + truncated(result.text@, 80), s_tool())
        } else {
            terminal::with_line(blocks, "  \u{2713} done"@, s_tool())
        },
        OutputChunk::PermissionRequest { tool_name, action, input, .. } => terminal::with_line(
            blocks,
            "\u{1f510} "@ + tool_name@ + " wants to "@ + action@ + " \u{2014} "@ + input@,
            s_tool(),
        ),
        OutputChunk::Status(s) => terminal::with_line(blocks, s@, s_system()),
        OutputChunk::Error(s) => terminal::with_line(blocks, s@, s_error()),
        OutputChunk::Done => match was.block_id {
            Some(id) => if was.buf.len() > 0 {
                terminal::rewritten(blocks, id as int, md_block(skin, was.buf, width))
            } else {
                blocks
            },
            None => blocks,
        },
        _ => blocks,
    }
}

/// The lines of a list, each in its style.
pub open spec fn list_lines(items: Seq<Seq<char>>, marked: Option<Seq<char>>) -> BlockModel {
    Seq::new(
        items.len(),
        |i: int|
            (
                "  "@ + items[i] + "\n"@,
                if marked == Some(items[i]) {
                    s_highlight()
                } else {
                    s_assistant()
                },
            ),
    )
}

/// What the blocks become by an event.
pub open spec fn shown_after(
    event: ServerEvent,
    app: AppState,
    was: StreamModel,
    blocks: Seq<Option<BlockModel>>,
    width: usize,
    skin: MadSkin,
) -> Seq<Option<BlockModel>> {
    match event {
        ServerEvent::Chunk { chunk, .. } => blocks_after(chunk, was, blocks, width, skin),
        ServerEvent::Created { session_id, session_name } => terminal::with_line(
            blocks,
            "Session ready: "@ + session_name@ + " ("@ + session_id@ + ")"@,
            s_system(),
        ),
        ServerEvent::SessionList { sessions } => if sessions@.len() == 0 {
            terminal::with_line(blocks, "(no saved sessions)"@, s_system())
        } else {
            terminal::with_block(
                blocks,
                seq![("Saved sessions:\n"@, s_system())] + list_lines(
                    text::views(sessions@),
                    None,
                ),
            )
        },
        ServerEvent::SessionResumed { session_id, session_name } => terminal::with_line(
            blocks,
            "Resumed: "@ + session_name@ + " ("@ + session_id@ + ")"@,
            s_system(),
        ),
        ServerEvent::ModelChanged { model } => terminal::with_line(
            blocks,
            "Model changed: "@ + model@,
            s_system(),
        ),
        ServerEvent::SessionCompacted { .. } => terminal::with_line(
            blocks,
            "Session compacted."@,
            s_system(),
        ),
        ServerEvent::ModelList { models } => if models@.len() == 0 {
            terminal::with_line(blocks, "(no models)"@, s_system())
        } else {
            terminal::with_block(
                blocks,
                seq![("Available models:\n"@, s_system())] + list_lines(
                    text::views(models@),
                    Some(app.model@),
                ),
            )
        },
        ServerEvent::SystemMsg(msg) => terminal::with_line(blocks, msg@, s_system()),
        ServerEvent::Unknown(_) => blocks,
    }
}

/// What the cache figures become by an event.
pub open spec fn cache_after(event: ServerEvent, was: CacheStats) -> CacheStats {
    match event {
        ServerEvent::Chunk {
            chunk: OutputChunk::CacheTelemetry {
                input_tokens,
                output_tokens,
                cache_read_tokens,
                cache_creation_tokens,
            },
            ..
        } => was.plus(input_tokens, output_tokens, cache_read_tokens, cache_creation_tokens),
        ServerEvent::SessionCompacted { .. } => CacheStats::zero(),
        _ => was,
    }
}

/// Whether an event can be counted.
pub open spec fn countable(event: ServerEvent, was: CacheStats) -> bool {
    match event {
        ServerEvent::Chunk {
            chunk: OutputChunk::CacheTelemetry {
                input_tokens,
                output_tokens,
                cache_read_tokens,
                cache_creation_tokens,
            },
            ..
        } => was.has_room(input_tokens, output_tokens, cache_read_tokens, cache_creation_tokens),
        _ => true,
    }
}

/// Whether what an event shows can be drawn on a screen of a width.
pub open spec fn drawable(
    event: ServerEvent,
    was: StreamModel,
    width: usize,
    skin: MadSkin,
) -> bool {
    match event {
        ServerEvent::Chunk { chunk: OutputChunk::TextComplete(s), .. } => was.block_id is Some
            ==> terminal::can_draw(skin, width, s@),
        ServerEvent::Chunk { chunk: OutputChunk::Done, .. } => was.block_id is Some && was.buf.len()
            > 0 ==> terminal::can_draw(skin, width, was.buf),
        _ => true,
    }
}

/// Whether an event can be taken: it can be counted, and what it shows can be
/// drawn.
pub fn can_take(screen: &Screen, app: &AppState, streaming: &Streaming, event: &ServerEvent) -> (r:
    bool)
    ensures
        r == (countable(*event, app.cache) && drawable(
            *event,
            streaming@,
            screen.width,
            screen.skin,
        )),
{
    match event {
        ServerEvent::Chunk { chunk, .. } => match chunk {
            OutputChunk::TextComplete(s) => streaming.block_id.is_none()
                || terminal::can_draw_block(&screen.skin, screen.width, s.as_str()),
            OutputChunk::Done => streaming.block_id.is_none() || streaming.buf.as_str().is_empty()
                || terminal::can_draw_block(&screen.skin, screen.width, streaming.buf.as_str()),
            OutputChunk::CacheTelemetry {
                input_tokens,
                output_tokens,
                cache_read_tokens,
                cache_creation_tokens,
            } => app.cache.can_update(
                *input_tokens,
                *output_tokens,
                *cache_read_tokens,
                *cache_creation_tokens,
            ),
            _ => true,
        },
        _ => true,
    }
}

/// Whether the status line is drawn anew after an event.
pub open spec fn redraws_status(event: ServerEvent) -> bool {
    match event {
        ServerEvent::Chunk { chunk, .. } => chunk is CacheTelemetry,
        ServerEvent::Created { .. } => true,
        ServerEvent::SessionResumed { .. } => true,
        ServerEvent::SessionCompacted { .. } => true,
        _ => false,
    }
}

/// What is left to do after an event.
pub struct Handled {
    /// The status line is to be drawn anew.
    pub redraw_status: bool,
    /// A file is to be saved.
    pub transfer: Option<Transfer>,
}

/// Whether the file that is left to save is the one that an event hands over.
pub open spec fn transfer_matches(event: ServerEvent, transfer: Option<Transfer>) -> bool {
    match event {
        ServerEvent::Chunk { chunk: OutputChunk::ToolEnd { name, input, result, .. }, .. } => {
            if is_transfer(name@, result) {
                transfer matches Some(t) && t.base_name@ == transfer_name(input@) && t.text@
                    == result.text@
            } else {
                transfer is None
            }
        },
        _ => transfer is None,
    }
}

/// Shows what a tool has put out so far, line by line.
fn print_progress(screen: &mut Screen, output: &str)
    ensures
        final(screen).shown() == with_progress(old(screen).shown(), text::lines_of(output@)),
        final(screen).same_frame(old(screen)),
{
    let lines = text::lines(output);
    let ghost all = text::lines_of(output@);
    let ghost start = *screen;
    let mut i: usize = 0;
    while i < lines.len()
        invariant
            i <= lines.len(),
            text::views(lines@) == all,
            screen.shown() == with_progress(start.shown(), all.take(i as int)),
            screen.same_frame(&start),
        decreases lines.len() - i,
    {
        proof {
            assert(all.take(i + 1).drop_last() =~= all.take(i as int));
            assert(all.take(i + 1).last() == lines@[i as int]@);
        }
        screen.print_line(text::cat2("  ", lines[i].as_str()), s_tool());
        i += 1;
    }
    assert(all.take(i as int) =~= all);
}

/// Shows the end of a tool call, or hands a transferred file on.
fn end_tool(screen: &mut Screen, name: &str, input: &Json, result: ToolResultWire) -> (r: Option<
    Transfer,
>)
    ensures
        final(screen).same_frame(old(screen)),
        if is_transfer(name@, result) {
            &&& final(screen).shown() == old(screen).shown()
            &&& r matches Some(t) && t.base_name@ == transfer_name(input@) && t.text@
                == result.text@
        } else {
            &&& r is None
            &&& final(screen).shown() == if result.is_error {
                terminal::with_line(old(screen).shown(), "  \u{2717} "@ + result.text@, s_error())
            } else if result.text@.len() > 0 {
                terminal::with_line(
                    old(screen).shown(),
                    "  \u{2713} "@ + truncated(result.text@, 80),
                    s_tool(),
                )
            } else {
                terminal::with_line(old(screen).shown(), "  \u{2713} done"@, s_tool())
            }
        },
{
    if text::same(name, "Transfer") && !result.is_error && !result.text.as_str().is_empty() {
        let path = match input.get_text("file_path") {
            Some(s) => s,
            None => "transferred-file".to_owned(),
        };
        let name = match paths::base_name(path.as_str()) {
            Some(s) => s,
            None => "transferred-file".to_owned(),
        };
        return Some(Transfer { base_name: name, text: result.text });
    }
    if result.is_error {
        screen.print_line(text::cat2("  \u{2717} ", result.text.as_str()), s_error());
    } else if !result.text.as_str().is_empty() {
        let preview = truncate_to_width(result.text.as_str(), 80);
        screen.print_line(text::cat2("  \u{2713} ", preview.as_str()), s_tool());
    } else {
        screen.print_line("  \u{2713} done".to_owned(), s_tool());
    }
    None
}

/// Shows a piece of output.
fn handle_chunk(
    screen: &mut Screen,
    app: &mut AppState,
    streaming: &mut Streaming,
    chunk: OutputChunk,
) -> (r: Option<Transfer>)
    requires
        countable(
            (ServerEvent::Chunk { session_id: old(app).session_id, chunk }),
            old(app).cache,
        ),
        drawable(
            (ServerEvent::Chunk { session_id: old(app).session_id, chunk }),
            old(streaming)@,
            old(screen).width,
            old(screen).skin,
        ),
    ensures
        final(screen).shown() == blocks_after(
            chunk,
            old(streaming)@,
            old(screen).shown(),
            old(screen).width,
            old(screen).skin,
        ),
        final(screen).same_frame(old(screen)),
        final(streaming)@ == stream_after(chunk, old(streaming)@, old(screen).shown().len() as int),
        final(app).session_id == old(app).session_id,
        final(app).model == old(app).model,
        final(app).cache == cache_after(
            (ServerEvent::Chunk { session_id: old(app).session_id, chunk }),
            old(app).cache,
        ),
        transfer_matches(
            (ServerEvent::Chunk { session_id: old(app).session_id, chunk }),
            r,
        ),
{
    match chunk {
        OutputChunk::TextDelta(s) => {
            if s.as_str().is_empty() {
                return None;
            }
            if streaming.finalized {
                streaming.reset();
            }
            streaming.buf.append(s.as_str());
            let block = StyledBlock::line(streaming.buf.clone(), s_assistant());
            match streaming.block_id {
                Some(id) => {
                    screen.set_block(id, block);
                },
                None => {
                    streaming.block_id = Some(screen.print_output(block));
                },
            }
        },
        OutputChunk::TextComplete(s) => {
            if let Some(id) = streaming.block_id {
                streaming.block_id = None;
                streaming.buf = String::new();
                assert(streaming.buf@ =~= seq![]);
                let block = terminal::render_md_block(&screen.skin, screen.width, s.as_str());
                screen.set_block(id, block);
                streaming.finalized = true;
            }
        },
        OutputChunk::ThinkingDelta(s) => {
            screen.print_line(s, s_thinking());
        },
        OutputChunk::ThinkingComplete(s) => {
            if !s.as_str().is_empty() {
                screen.print_line(s, s_thinking());
            }
        },
        OutputChunk::ToolStart { name, input, .. } => {
            screen.print_line(tool_call_line(name.as_str(), &input), s_tool());
        },
        OutputChunk::ToolProgress { output, .. } => {
            print_progress(screen, output.as_str());
        },
        OutputChunk::ToolEnd { name, input, result, .. } => {
            return end_tool(screen, name.as_str(), &input, result);
        },
        OutputChunk::PermissionRequest { tool_name, action, input, .. } => {
            let line = text::cat6(
                "\u{1f510} ",
                tool_name.as_str(),
                " wants to ",
                action.as_str(),
                " \u{2014} ",
                input.as_str(),
            );
            screen.print_line(line, s_tool());
        },
        OutputChunk::Status(s) => {
            screen.print_line(s, s_system());
        },
        OutputChunk::Error(s) => {
            screen.print_line(s, s_error());
        },
        OutputChunk::Done => {
            if let Some(id) = streaming.block_id {
                if !streaming.buf.as_str().is_empty() {
                    let block = terminal::render_md_block(&screen.skin, screen.width, streaming.buf.as_str());
                    screen.set_block(id, block);
                }
            }
            streaming.reset();
        },
        OutputChunk::CacheTelemetry {
            input_tokens,
            output_tokens,
            cache_read_tokens,
            cache_creation_tokens,
        } => {
            app.cache.update(input_tokens, output_tokens, cache_read_tokens, cache_creation_tokens);
        },
        OutputChunk::AskUserQuestion { .. } => {},
        OutputChunk::Unknown => {},
    }
    None
}

/// A heading and a list under it, one item of which may be marked.
fn list_block(heading: &str, items: &Vec<String>, marked: Option<&String>) -> (r: StyledBlock)
    ensures
        r@ == seq![(heading@, s_system())] + list_lines(
            text::views(items@),
            match marked {
                Some(m) => Some(m@),
                None => None,
            },
        ),
{
    let ghost mark: Option<Seq<char>> = match marked {
        Some(m) => Some(m@),
        None => None,
    };
    let ghost lines = list_lines(text::views(items@), mark);
    let mut st = StyledText::of(Span::new(heading.to_owned(), s_system()));
    let ghost head = st@;
    let mut i: usize = 0;
    assert(head + lines.take(0) =~= head);
    while i < items.len()
        invariant
            i <= items.len(),
            mark == match marked {
                Some(m) => Some(m@),
                None => None,
            },
            lines == list_lines(text::views(items@), mark),
            st@ == head + lines.take(i as int),
        decreases items.len() - i,
    {
        let hit = match marked {
            Some(m) => text::same(m.as_str(), items[i].as_str()),
            None => false,
        };
        let style = if hit { s_highlight() } else { s_assistant() };
        st.push(Span::new(text::cat3("  ", items[i].as_str(), "\n"), style));
        assert(text::views(items@)[i as int] == items@[i as int]@);
        i += 1;
        assert(st@ =~= head + lines.take(i as int));
    }
    assert(lines.take(i as int) =~= lines);
    StyledBlock::new(st)
}

/// Shows an event of the daemon.
pub fn handle_daemon_event(
    screen: &mut Screen,
    app: &mut AppState,
    streaming: &mut Streaming,
    event: ServerEvent,
) -> (r: Handled)
    requires
        countable(event, old(app).cache),
        drawable(event, old(streaming)@, old(screen).width, old(screen).skin),
    ensures
        final(screen).shown() == shown_after(
            event,
            *old(app),
            old(streaming)@,
            old(screen).shown(),
            old(screen).width,
            old(screen).skin,
        ),
        final(screen).same_frame(old(screen)),
        final(streaming)@ == match event {
            ServerEvent::Chunk { chunk, .. } => stream_after(
                chunk,
                old(streaming)@,
                old(screen).shown().len() as int,
            ),
            _ => old(streaming)@,
        },
        sound(old(streaming)@) ==> sound(final(streaming)@),
        final(app).session_id == old(app).session_id,
        final(app).model@ == match event {
            ServerEvent::ModelChanged { model } => model@,
            _ => old(app).model@,
        },
        final(app).cache == cache_after(event, old(app).cache),
        r.redraw_status == redraws_status(event),
        transfer_matches(event, r.transfer),
{
    let mut redraw_status = false;
    let mut transfer: Option<Transfer> = None;
    match event {
        ServerEvent::Chunk { chunk, .. } => {
            redraw_status = matches!(chunk, OutputChunk::CacheTelemetry { .. });
            transfer = handle_chunk(screen, app, streaming, chunk);
        },
        ServerEvent::Created { session_id, session_name } => {
            let line = text::cat5(
                "Session ready: ",
                session_name.as_str(),
                " (",
                session_id.as_str(),
                ")",
            );
            screen.print_line(line, s_system());
            redraw_status = true;
        },
        ServerEvent::SessionList { sessions } => {
            if sessions.len() == 0 {
                screen.print_line("(no saved sessions)".to_owned(), s_system());
            } else {
                let _ = screen.print_output(list_block("Saved sessions:\n", &sessions, None));
            }
        },
        ServerEvent::SessionResumed { session_id, session_name } => {
            let line = text::cat5(
                "Resumed: ",
                session_name.as_str(),
                " (",
                session_id.as_str(),
                ")",
            );
            screen.print_line(line, s_system());
            redraw_status = true;
        },
        ServerEvent::ModelChanged { model } => {
            app.model = model.clone();
            screen.print_line(text::cat2("Model changed: ", model.as_str()), s_system());
        },
        ServerEvent::SessionCompacted { .. } => {
            screen.print_line("Session compacted.".to_owned(), s_system());
            app.cache = CacheStats::default();
            redraw_status = true;
        },
        ServerEvent::ModelList { models } => {
            if models.len() == 0 {
                screen.print_line("(no models)".to_owned(), s_system());
            } else {
                let block = list_block("Available models:\n", &models, Some(&app.model));
                let _ = screen.print_output(block);
            }
        },
        ServerEvent::SystemMsg(msg) => {
            screen.print_line(msg, s_system());
        },
        ServerEvent::Unknown(_) => {},
    }
    Handled { redraw_status, transfer }
}

// ---------------------------------------------------------------------------
// Laws
// ---------------------------------------------------------------------------

/// A stream is sound when it begins, and stays sound whatever output comes.
pub proof fn the_stream_stays_sound(chunk: OutputChunk, was: StreamModel, next: int)
    requires
        sound(was),
    ensures
        sound(idle()),
        sound(stream_after(chunk, was, next)),
{
}

/// Progress lines only add blocks.
proof fn progress_only_adds(blocks: Seq<Option<BlockModel>>, lines: Seq<Seq<char>>)
    ensures
        with_progress(blocks, lines).len() == blocks.len() + lines.len(),
        forall|i: int| 0 <= i < blocks.len() ==> with_progress(blocks, lines)[i] == blocks[i],
    decreases lines.len(),
{
    if lines.len() > 0 {
        progress_only_adds(blocks, lines.drop_last());
    }
}

/// No event takes a block away, and no event touches a block but the one that is
/// being streamed.
pub proof fn output_only_grows(
    event: ServerEvent,
    app: AppState,
    was: StreamModel,
    blocks: Seq<Option<BlockModel>>,
    width: usize,
    skin: MadSkin,
)
    ensures
        shown_after(event, app, was, blocks, width, skin).len() >= blocks.len(),
        forall|i: int|
            0 <= i < blocks.len() ==> {
                let after = #[trigger] shown_after(event, app, was, blocks, width, skin)[i];
                &&& blocks[i] is Some ==> after is Some
                &&& !(was.block_id is Some && was.block_id->0 == i) ==> after == blocks[i]
            },
{
    match event {
        ServerEvent::Chunk { chunk: OutputChunk::ToolProgress { output, .. }, .. } => {
            progress_only_adds(blocks, text::lines_of(output@));
        },
        _ => {},
    }
}

/// Two pieces of streamed text are one text in one block: the second adds to
/// what the first left, in the block that the first one opened or continued.
pub proof fn deltas_share_a_block(
    first: String,
    second: String,
    was: StreamModel,
    blocks: Seq<Option<BlockModel>>,
    width: usize,
    skin: MadSkin,
)
    requires
        first@.len() > 0,
        second@.len() > 0,
        blocks.len() < usize::MAX,
    ensures
        ({
            let s1 = stream_after(OutputChunk::TextDelta(first), was, blocks.len() as int);
            let b1 = blocks_after(OutputChunk::TextDelta(first), was, blocks, width, skin);
            let s2 = stream_after(OutputChunk::TextDelta(second), s1, b1.len() as int);
            let b2 = blocks_after(OutputChunk::TextDelta(second), s1, b1, width, skin);
            &&& s2.block_id == s1.block_id
            &&& s2.buf == s1.buf + second@
            &&& b2.len() == b1.len()
            &&& was.block_id is None && !was.finalized ==> b1.len() == blocks.len() + 1
                && b2.last() == Some(seq![(was.buf + first@ + second@, s_assistant())])
        }),
{
}

/// Streamed text shows, whatever was cleared away in the meantime: the block that
/// is being streamed holds all the text that has come.
pub proof fn streamed_text_shows(
    s: String,
    was: StreamModel,
    blocks: Seq<Option<BlockModel>>,
    width: usize,
    skin: MadSkin,
)
    requires
        s@.len() > 0,
        blocks.len() < usize::MAX,
        was.block_id is Some && !was.finalized ==> was.block_id->0 < blocks.len(),
    ensures
        ({
            let stream = stream_after(OutputChunk::TextDelta(s), was, blocks.len() as int);
            let after = blocks_after(OutputChunk::TextDelta(s), was, blocks, width, skin);
            &&& stream.block_id is Some
            &&& stream.block_id->0 < after.len()
            &&& after[stream.block_id->0 as int] == Some(seq![(stream.buf, s_assistant())])
        }),
{
}

/// The end of a turn leaves nothing being streamed, and a second end changes
/// nothing more.
pub proof fn done_twice_is_done_once(
    was: StreamModel,
    blocks: Seq<Option<BlockModel>>,
    width: usize,
    skin: MadSkin,
    next: int,
)
    ensures
        stream_after(OutputChunk::Done, was, next) == idle(),
        blocks_after(OutputChunk::Done, idle(), blocks, width, skin) == blocks,
{
}

/// A complete text that no streamed text came before is not shown.
pub proof fn complete_needs_a_stream(
    s: String,
    was: StreamModel,
    blocks: Seq<Option<BlockModel>>,
    width: usize,
    skin: MadSkin,
    next: int,
)
    requires
        was.block_id is None,
    ensures
        stream_after(OutputChunk::TextComplete(s), was, next) == was,
        blocks_after(OutputChunk::TextComplete(s), was, blocks, width, skin) == blocks,
{
}

/// Streamed text after a complete one opens a new block.
pub proof fn delta_after_complete_opens_a_block(
    s: String,
    was: StreamModel,
    blocks: Seq<Option<BlockModel>>,
    width: usize,
    skin: MadSkin,
)
    requires
        was.finalized,
        s@.len() > 0,
    ensures
        blocks_after(OutputChunk::TextDelta(s), was, blocks, width, skin) == terminal::with_line(
            blocks,
            s@,
            s_assistant(),
        ),
        stream_after(OutputChunk::TextDelta(s), was, blocks.len() as int).buf == s@,
{
    assert(seq![] + s@ =~= s@);
}

/// Whether one line more is shown, behind all blocks.
pub open spec fn prints(
    blocks: Seq<Option<BlockModel>>,
    after: Seq<Option<BlockModel>>,
    line: Seq<char>,
) -> bool {
    &&& after.len() == blocks.len() + 1
    &&& after.drop_last() == blocks
    &&& after.last() matches Some(b) && b.len() == 1 && b[0].0 == line
}

/// One line more is shown as it is.
proof fn a_line_is_printed(blocks: Seq<Option<BlockModel>>, line: Seq<char>, style: Style)
    ensures
        prints(blocks, terminal::with_line(blocks, line, style), line),
{
    assert(terminal::with_line(blocks, line, style).drop_last() =~= blocks);
}

/// What the agent thinks, its state, its errors and what it wants to do are shown, each on
/// a line of its own.
pub proof fn output_is_printed(
    session_id: String,
    s: String,
    tool_name: String,
    action: String,
    details: Option<String>,
    app: AppState,
    was: StreamModel,
    blocks: Seq<Option<BlockModel>>,
    width: usize,
    skin: MadSkin,
)
    requires
        s@.len() > 0,
    ensures
        ({
            let shown = |chunk: OutputChunk|
                shown_after(ServerEvent::Chunk { session_id, chunk }, app, was, blocks, width, skin);
            &&& prints(blocks, shown(OutputChunk::ThinkingDelta(s)), s@)
            &&& prints(blocks, shown(OutputChunk::ThinkingComplete(s)), s@)
            &&& prints(blocks, shown(OutputChunk::Status(s)), s@)
            &&& prints(blocks, shown(OutputChunk::Error(s)), s@)
            &&& prints(
                blocks,
                shown(OutputChunk::PermissionRequest { tool_name, action, input: s, details }),
                "\u{1f510} "@ + tool_name@ + " wants to "@ + action@ + " \u{2014} "@ + s@,
            )
        }),
{
    a_line_is_printed(blocks, s@, s_thinking());
    a_line_is_printed(blocks, s@, s_system());
    a_line_is_printed(blocks, s@, s_error());
    a_line_is_printed(
        blocks,
        "\u{1f510} "@ + tool_name@ + " wants to "@ + action@ + " \u{2014} "@ + s@,
        s_tool(),
    );
}

/// A tool call is shown with its name and its command, and its result behind a mark: the
/// whole of an error, the beginning of what a tool returned, and that it is done where it
/// returned nothing.
pub proof fn tools_are_printed(
    session_id: String,
    id: String,
    name: String,
    input: Json,
    result: ToolResultWire,
    app: AppState,
    was: StreamModel,
    blocks: Seq<Option<BlockModel>>,
    width: usize,
    skin: MadSkin,
)
    requires
        name@ != "Transfer"@,
    ensures
        ({
            let ended = shown_after(
                ServerEvent::Chunk {
                    session_id,
                    chunk: OutputChunk::ToolEnd { id, name, input, result },
                },
                app,
                was,
                blocks,
                width,
                skin,
            );
            let begun = shown_after(
                ServerEvent::Chunk {
                    session_id,
                    chunk: OutputChunk::ToolStart { id, name, input },
                },
                app,
                was,
                blocks,
                width,
                skin,
            );
            &&& prints(blocks, begun, call_row(name@, input@))
            &&& result.is_error ==> prints(blocks, ended, "  \u{2717} "@ + result.text@)
            &&& !result.is_error && 0 < result.text@.len() <= 80 ==> prints(
                blocks,
                ended,
                "  \u{2713} "@ + result.text@,
            )
            &&& !result.is_error && result.text@.len() > 80 ==> prints(
                blocks,
                ended,
                "  \u{2713} "@ + result.text@.take(79).push('\u{2026}'),
            )
            &&& !result.is_error && result.text@.len() == 0 ==> prints(
                blocks,
                ended,
                "  \u{2713} done"@,
            )
        }),
{
    a_line_is_printed(blocks, call_row(name@, input@), s_tool());
    a_line_is_printed(blocks, "  \u{2717} "@ + result.text@, s_error());
    a_line_is_printed(blocks, "  \u{2713} "@ + result.text@, s_tool());
    a_line_is_printed(blocks, "  \u{2713} "@ + result.text@.take(79).push('\u{2026}'), s_tool());
    a_line_is_printed(blocks, "  \u{2713} done"@, s_tool());
}

/// The row of a tool call has the name of the tool and the command that it runs, where that
/// is one line without white space round it.
pub proof fn call_rows_name_the_command(name: Seq<char>, input: JsonTree, s: Seq<char>)
    requires
        input.text_field("command"@) == Some(s),
        0 < s.len() <= 120,
        !text::is_space(s[0]),
        !text::is_space(s.last()),
        !s.contains('\n'),
    ensures
        call_row(name, input) == "tool call "@ + name + ": "@ + s,
{
    assert(text::trimmed_start(s) == s);
    assert(text::trimmed_end(s) == s);
    text::index_of_bounds(s, '\n');
    assert(text::lines_of(s) =~= seq![s]);
    assert(one_row(s) == s);
    assert(primary_keys()[0] == "command"@);
}

/// A file that the agent hands over is left to be saved, under its name and with what it
/// holds; nothing is shown of it then.
pub proof fn transfers_are_handed_on(
    session_id: String,
    id: String,
    name: String,
    input: Json,
    result: ToolResultWire,
    transfer: Option<Transfer>,
    p: Seq<char>,
    file: Seq<char>,
)
    requires
        transfer_matches(
            (ServerEvent::Chunk {
                session_id,
                chunk: OutputChunk::ToolEnd { id, name, input, result },
            }),
            transfer,
        ),
        input@.text_field("file_path"@) == Some(p),
        paths::file_name(p) == Some(file),
    ensures
        name@ == "Transfer"@ && !result.is_error && result.text@.len() > 0 ==> (transfer matches Some(
            t,
        ) && t.base_name@ == file && t.text@ == result.text@),
        name@ != "Transfer"@ ==> transfer is None,
        result.is_error ==> transfer is None,
{
}

/// What a tool puts out while it runs is shown line by line.
pub proof fn progress_is_printed(
    blocks: Seq<Option<BlockModel>>,
    lines: Seq<Seq<char>>,
    i: int,
)
    requires
        0 <= i < lines.len(),
    ensures
        with_progress(blocks, lines).len() == blocks.len() + lines.len(),
        with_progress(blocks, lines)[blocks.len() + i] matches Some(b) && b.len() == 1 && b[0].0
            == "  "@ + lines[i],
    decreases lines.len(),
{
    progress_only_adds(blocks, lines);
    progress_only_adds(blocks, lines.drop_last());
    if i < lines.len() - 1 {
        progress_is_printed(blocks, lines.drop_last(), i);
    }
}

/// An answer that is complete, or whose turn ends, is shown as markdown in the place where
/// it was streamed.
pub proof fn complete_answers_are_rendered(
    session_id: String,
    s: String,
    app: AppState,
    was: StreamModel,
    blocks: Seq<Option<BlockModel>>,
    width: usize,
    skin: MadSkin,
    id: usize,
)
    requires
        was.block_id == Some(id),
        id < blocks.len(),
        was.buf.len() > 0,
    ensures
        ({
            let complete = shown_after(
                ServerEvent::Chunk { session_id, chunk: OutputChunk::TextComplete(s) },
                app,
                was,
                blocks,
                width,
                skin,
            );
            let done = shown_after(
                ServerEvent::Chunk { session_id, chunk: OutputChunk::Done },
                app,
                was,
                blocks,
                width,
                skin,
            );
            &&& complete.len() == blocks.len()
            &&& complete[id as int] == Some(
                markdown::rendered(skin, s@, terminal::wrap_width(width)),
            )
            &&& done.len() == blocks.len()
            &&& done[id as int] == Some(
                markdown::rendered(skin, was.buf, terminal::wrap_width(width)),
            )
        }),
{
}

/// What the daemon says is shown on a line of its own.
pub proof fn notices_are_printed(
    session_id: String,
    session_name: String,
    s: String,
    app: AppState,
    was: StreamModel,
    blocks: Seq<Option<BlockModel>>,
    width: usize,
    skin: MadSkin,
)
    ensures
        ({
            let shown = |event: ServerEvent| shown_after(event, app, was, blocks, width, skin);
            &&& prints(
                blocks,
                shown(ServerEvent::Created { session_id, session_name }),
                "Session ready: "@ + session_name@ + " ("@ + session_id@ + ")"@,
            )
            &&& prints(
                blocks,
                shown(ServerEvent::SessionResumed { session_id, session_name }),
                "Resumed: "@ + session_name@ + " ("@ + session_id@ + ")"@,
            )
            &&& prints(
                blocks,
                shown(ServerEvent::ModelChanged { model: s }),
                "Model changed: "@ + s@,
            )
            &&& prints(
                blocks,
                shown(ServerEvent::SessionCompacted { session_id }),
                "Session compacted."@,
            )
            &&& prints(blocks, shown(ServerEvent::SystemMsg(s)), s@)
        }),
{
    a_line_is_printed(
        blocks,
        "Session ready: "@ + session_name@ + " ("@ + session_id@ + ")"@,
        s_system(),
    );
    a_line_is_printed(
        blocks,
        "Resumed: "@ + session_name@ + " ("@ + session_id@ + ")"@,
        s_system(),
    );
    a_line_is_printed(blocks, "Model changed: "@ + s@, s_system());
    a_line_is_printed(blocks, "Session compacted."@, s_system());
    a_line_is_printed(blocks, s@, s_system());
}

/// Saved sessions and models are shown by their names, one on each line, and the model in
/// use looks different from the others.
pub proof fn lists_are_printed(
    names: Vec<String>,
    app: AppState,
    was: StreamModel,
    blocks: Seq<Option<BlockModel>>,
    width: usize,
    skin: MadSkin,
    i: int,
)
    requires
        0 <= i < names@.len(),
    ensures
        ({
            let sessions = shown_after(
                ServerEvent::SessionList { sessions: names },
                app,
                was,
                blocks,
                width,
                skin,
            );
            let models = shown_after(
                ServerEvent::ModelList { models: names },
                app,
                was,
                blocks,
                width,
                skin,
            );
            &&& sessions.len() == blocks.len() + 1
            &&& sessions.last() matches Some(b) && b.len() == names@.len() + 1 && b[i + 1].0 == "  "@
                + names@[i]@ + "\n"@
            &&& models.len() == blocks.len() + 1
            &&& models.last() matches Some(b) && b.len() == names@.len() + 1 && b[i + 1].0 == "  "@
                + names@[i]@ + "\n"@ && (names@[i]@ == app.model@ ==> b[i + 1].1 == s_highlight())
                && (names@[i]@ != app.model@ ==> b[i + 1].1 == s_assistant())
        }),
{
    assert(text::views(names@)[i] == names@[i]@);
}

/// What an answer took is counted, and compacting a session begins the count anew; nothing
/// else touches it.
pub proof fn what_answers_took_is_counted(
    session_id: String,
    input_tokens: u32,
    output_tokens: u32,
    cache_read_tokens: u32,
    cache_creation_tokens: u32,
    was: CacheStats,
)
    requires
        was.has_room(input_tokens, output_tokens, cache_read_tokens, cache_creation_tokens),
    ensures
        ({
            let after = cache_after(
                ServerEvent::Chunk {
                    session_id,
                    chunk: OutputChunk::CacheTelemetry {
                        input_tokens,
                        output_tokens,
                        cache_read_tokens,
                        cache_creation_tokens,
                    },
                },
                was,
            );
            &&& after.total_input_tokens == was.total_input_tokens + input_tokens
            &&& after.total_output_tokens == was.total_output_tokens + output_tokens
            &&& after.total_cache_read_tokens == was.total_cache_read_tokens + cache_read_tokens
            &&& after.total_cache_creation_tokens == was.total_cache_creation_tokens
                + cache_creation_tokens
            &&& after.request_count == was.request_count + 1
        }),
        cache_after(ServerEvent::SessionCompacted { session_id }, was).total_input_tokens == 0,
        cache_after(ServerEvent::SessionCompacted { session_id }, was).total_output_tokens == 0,
        cache_after(ServerEvent::Chunk { session_id, chunk: OutputChunk::Done }, was) == was,
{
}

/// What a tool works on is put on one row, its lines parted by semicolons.
pub proof fn lines_are_put_on_one_row(a: Seq<char>, b: Seq<char>)
    requires
        a.len() > 0,
        b.len() > 0,
        !text::is_space(a[0]),
        !text::is_space(a.last()),
        !text::is_space(b[0]),
        !text::is_space(b.last()),
        forall|i: int| 0 <= i < a.len() ==> #[trigger] a[i] != '\n',
        forall|i: int| 0 <= i < b.len() ==> #[trigger] b[i] != '\n',
    ensures
        one_row(a) == a,
        one_row(a + seq!['\n'] + b) == a + " ; "@ + b,
{
    let s = a + seq!['\n'] + b;
    text::bare_text_is_kept(a);
    assert(s[0] == a[0] && s.last() == b.last());
    text::bare_text_is_kept(s);
    text::the_first_place_is_found(a, '\n', b);
    text::the_first_place_is_found(b, '\n', Seq::empty());
    assert(text::is_space('\n'));
    assert(s.take(a.len() as int) =~= a);
    assert(s.skip(a.len() as int + 1) =~= b);
    assert(a.last() != '\r' && b.last() != '\r');
    reveal_with_fuel(text::lines_of, 3);
    assert(text::lines_of(a) =~= seq![a]);
    assert(text::lines_of(b) =~= seq![b]);
    assert(text::lines_of(s) =~= seq![a, b]);
    reveal_with_fuel(text::joined, 3);
    assert(seq![a, b].drop_last() =~= seq![a]);
    assert(seq![a, b].skip(1) =~= seq![b]);
    assert(text::joined(seq![a], " ; "@) =~= a);
    assert(text::joined(seq![a, b], " ; "@) =~= a + " ; "@ + b);
}

/// What a tool works on is looked for under its usual names, one after the other; without
/// any of them the whole input is shown, unless there is none.
pub proof fn calls_are_told_by_what_they_work_on(name: Seq<char>, input: JsonTree)
    ensures
        primary_keys() == seq![
            "command"@,
            "path"@,
            "file_path"@,
            "pattern"@,
            "query"@,
            "url"@,
        ],
        primary_value(input, primary_keys()) is None ==> {
            let all = json::printed(json::settled(input));
            &&& all == "{}"@ || all == "null"@ ==> call_row(name, input) == "tool call "@ + name
            &&& all != "{}"@ && all != "null"@ && all.len() <= 120 ==> call_row(name, input)
                == "tool call "@ + name + ": "@ + all
            &&& all != "{}"@ && all != "null"@ && all.len() > 120 ==> call_row(name, input)
                == "tool call "@ + name + ": "@ + all.take(119).push('\u{2026}')
        },
{
}

/// The first name under which there is something counts.
pub proof fn the_first_name_counts(
    input: JsonTree,
    key: Seq<char>,
    keys: Seq<Seq<char>>,
    s: Seq<char>,
)
    ensures
        input.text_field(key) == Some(s) && one_row(s).len() > 0 ==> primary_value(
            input,
            seq![key] + keys,
        ) == Some(one_row(s)),
        input.text_field(key) is None ==> primary_value(input, seq![key] + keys) == primary_value(
            input,
            keys,
        ),
        primary_value(input, Seq::empty()) is None,
{
    assert((seq![key] + keys)[0] == key);
    assert((seq![key] + keys).skip(1) =~= keys);
}

/// A file that is handed over has the name at the end of its path, or a name of its own where
/// there is none.
pub proof fn files_have_names(input: JsonTree, p: Seq<char>)
    ensures
        input.text_field("file_path"@) is None && paths::file_name("transferred-file"@) == Some(
            "transferred-file"@,
        ) ==> transfer_name(input) == "transferred-file"@,
        input.text_field("file_path"@) == Some(p) && paths::file_name(p) is None
            ==> transfer_name(input) == "transferred-file"@,
        input.text_field("file_path"@) == Some(p) && paths::file_name(p) is Some
            ==> transfer_name(input) == paths::file_name(p)->0,
{
}

/// Lists have a heading, and a list of nothing says so.
pub proof fn lists_have_headings(
    names: Vec<String>,
    app: AppState,
    was: StreamModel,
    blocks: Seq<Option<BlockModel>>,
    width: usize,
    skin: MadSkin,
)
    ensures
        ({
            let shown = |event: ServerEvent| shown_after(event, app, was, blocks, width, skin);
            let sessions = shown(ServerEvent::SessionList { sessions: names });
            let models = shown(ServerEvent::ModelList { models: names });
            &&& names@.len() == 0 ==> prints(blocks, sessions, "(no saved sessions)"@)
            &&& names@.len() == 0 ==> prints(blocks, models, "(no models)"@)
            &&& names@.len() > 0 ==> sessions.last()->0[0].0 == "Saved sessions:\n"@
            &&& names@.len() > 0 ==> models.last()->0[0].0 == "Available models:\n"@
        }),
{
    a_line_is_printed(blocks, "(no saved sessions)"@, s_system());
    a_line_is_printed(blocks, "(no models)"@, s_system());
}

/// Streamed text is gathered in one block: the first piece opens it, the next ones go on in it,
/// and when the answer is complete or done the next piece opens another.
pub proof fn streamed_text_is_gathered(
    session_id: String,
    s: String,
    app: AppState,
    was: StreamModel,
    blocks: Seq<Option<BlockModel>>,
    width: usize,
    skin: MadSkin,
    id: usize,
)
    requires
        s@.len() > 0,
        blocks.len() <= usize::MAX,
        id < blocks.len(),
    ensures
        ({
            let event = ServerEvent::Chunk { session_id, chunk: OutputChunk::TextDelta(s) };
            let shown = shown_after(event, app, was, blocks, width, skin);
            let now = stream_after(OutputChunk::TextDelta(s), was, blocks.len() as int);
            &&& !was.finalized && was.block_id == Some(id) ==> {
                &&& shown.len() == blocks.len()
                &&& (shown[id as int] matches Some(b) && b.len() == 1 && b[0].0 == was.buf + s@)
                &&& now == (StreamModel {
                    block_id: Some(id),
                    buf: was.buf + s@,
                    finalized: false,
                })
            }
            &&& was.finalized ==> {
                &&& prints(blocks, shown, s@)
                &&& now == (StreamModel {
                    block_id: Some(blocks.len() as usize),
                    buf: s@,
                    finalized: false,
                })
            }
            &&& !was.finalized && was.block_id is None && was.buf.len() == 0 ==> {
                &&& prints(blocks, shown, s@)
                &&& now.block_id == Some(blocks.len() as usize)
                &&& now.buf == s@
            }
        }),
        ({
            let done = stream_after(OutputChunk::Done, was, blocks.len() as int);
            let complete = stream_after(OutputChunk::TextComplete(s), was, blocks.len() as int);
            &&& done.block_id is None && done.buf.len() == 0 && !done.finalized
            &&& was.block_id is Some ==> complete.finalized && complete.block_id is None
                && complete.buf.len() == 0
            &&& was.block_id is None ==> complete == was
        }),
{
    assert(Seq::<char>::empty() + s@ =~= s@);
    if was.buf.len() == 0 {
        assert(was.buf =~= Seq::<char>::empty());
    }
    a_line_is_printed(blocks, s@, s_assistant());
}

} // verus!
