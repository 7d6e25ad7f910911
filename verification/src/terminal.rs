//! The terminal client of the agent daemon: what the screen shows, what a
//! submitted line does, and how daemon events change the output.

use vstd::prelude::*;

use crate::markdown;
use crate::markdown_reader;
use crate::style::{Colour, Span, Style, StyledBlock, StyledText};
use crate::text;

use termimad::MadSkin;

verus! {

// ---------------------------------------------------------------------------
// Styles
// ---------------------------------------------------------------------------

/// The plain style in a colour.
#[verifier::allow_in_spec]
pub fn sty(fg: Colour) -> (r: Style)
    returns
        Style::plain().fg(fg),
{
    Style::plain().fg(fg)
}

/// What the user wrote.
#[verifier::allow_in_spec]
pub fn s_user() -> (r: Style)
    returns
        sty(Colour::Cyan).bold(),
{
    sty(Colour::Cyan).bold()
}

/// What the agent says.
#[verifier::allow_in_spec]
pub fn s_assistant() -> (r: Style)
    returns
        Style::plain(),
{
    Style::plain()
}

/// Tool calls.
#[verifier::allow_in_spec]
pub fn s_tool() -> (r: Style)
    returns
        sty(Colour::Yellow),
{
    sty(Colour::Yellow)
}

/// Errors.
#[verifier::allow_in_spec]
pub fn s_error() -> (r: Style)
    returns
        sty(Colour::Red),
{
    sty(Colour::Red)
}

/// Messages of the client.
#[verifier::allow_in_spec]
pub fn s_system() -> (r: Style)
    returns
        sty(Colour::DarkGrey).italic(),
{
    sty(Colour::DarkGrey).italic()
}

/// What the agent thinks.
#[verifier::allow_in_spec]
pub fn s_thinking() -> (r: Style)
    returns
        sty(Colour::DarkGrey).italic(),
{
    sty(Colour::DarkGrey).italic()
}

/// What stands out.
#[verifier::allow_in_spec]
pub fn s_highlight() -> (r: Style)
    returns
        sty(Colour::Green).bold(),
{
    sty(Colour::Green).bold()
}

/// The cache figures once there are any.
#[verifier::allow_in_spec]
pub fn s_cache_hit() -> (r: Style)
    returns
        sty(Colour::Green),
{
    sty(Colour::Green)
}

/// The cache figures before there are any.
#[verifier::allow_in_spec]
pub fn s_cache_miss() -> (r: Style)
    returns
        sty(Colour::DarkGrey),
{
    sty(Colour::DarkGrey)
}

// ---------------------------------------------------------------------------
// Screen
// ---------------------------------------------------------------------------

/// What clears the screen and what was scrolled off it.
pub const CLEAR_SCREEN: &'static str = "\x1b[2J\x1b[3J\x1b[H";

/// The output of the client: blocks in the order in which they were printed,
/// a status line, and the prompt's buffer. A block is known by its place; one
/// that was cleared away leaves its place empty. Markdown is drawn in one skin.
pub struct Screen {
    pub blocks: Vec<Option<StyledBlock>>,
    pub status: Option<StyledBlock>,
    pub buffer: String,
    pub cursor: usize,
    pub width: usize,
    pub wiped: bool,
    pub skin: MadSkin,
}

/// What a screen shows.
pub type BlockModel = Seq<(Seq<char>, Style)>;

/// The blocks of a screen.
pub open spec fn block_views(v: Seq<Option<StyledBlock>>) -> Seq<Option<BlockModel>> {
    Seq::new(
        v.len(),
        |i: int|
            match v[i] {
                Some(b) => Some(b@),
                None => None,
            },
    )
}

/// The blocks with one more behind them.
pub open spec fn with_block(blocks: Seq<Option<BlockModel>>, b: BlockModel) -> Seq<
    Option<BlockModel>,
> {
    blocks.push(Some(b))
}

/// The blocks with a line of one style behind them.
pub open spec fn with_line(blocks: Seq<Option<BlockModel>>, s: Seq<char>, style: Style) -> Seq<
    Option<BlockModel>,
> {
    with_block(blocks, seq![(s, style)])
}

/// The blocks with the one at a place rewritten; one that was cleared away
/// shows again.
pub open spec fn rewritten(blocks: Seq<Option<BlockModel>>, id: int, b: BlockModel) -> Seq<
    Option<BlockModel>,
> {
    if 0 <= id < blocks.len() {
        blocks.update(id, Some(b))
    } else {
        blocks
    }
}

/// The places of the blocks, all of them cleared.
pub open spec fn cleared(blocks: Seq<Option<BlockModel>>) -> Seq<Option<BlockModel>> {
    Seq::new(blocks.len(), |i: int| None)
}

impl Screen {
    /// The blocks.
    pub open spec fn shown(&self) -> Seq<Option<BlockModel>> {
        block_views(self.blocks@)
    }

    /// Whether all but the blocks is the same.
    pub open spec fn same_frame(&self, other: &Screen) -> bool {
        &&& self.status == other.status
        &&& self.buffer == other.buffer
        &&& self.cursor == other.cursor
        &&& self.width == other.width
        &&& self.wiped == other.wiped
        &&& self.skin == other.skin
    }

    /// An empty screen of a width.
    pub fn new(width: usize) -> (r: Screen)
        ensures
            r.shown() == Seq::<Option<BlockModel>>::empty(),
            r.status is None,
            r.buffer@ == Seq::<char>::empty(),
            r.cursor == 0,
            r.width == width,
            !r.wiped,
            markdown_reader::dark(r.skin),
    {
        let r = Screen {
            blocks: Vec::new(),
            status: None,
            buffer: String::new(),
            cursor: 0,
            width,
            wiped: false,
            skin: markdown::default_skin(),
        };
        assert(r.shown() =~= Seq::empty());
        assert(r.buffer@ =~= Seq::empty());
        r
    }

    /// Prints a block and says where it stands.
    pub fn print_output(&mut self, block: StyledBlock) -> (id: usize)
        ensures
            final(self).shown() == with_block(old(self).shown(), block@),
            id == old(self).shown().len(),
            final(self).same_frame(old(self)),
    {
        let id: usize = self.blocks.len();
        self.blocks.push(Some(block));
        assert(self.shown() =~= with_block(old(self).shown(), block@));
        id
    }

    /// Prints a line in a style.
    pub fn print_line(&mut self, s: String, style: Style)
        ensures
            final(self).shown() == with_line(old(self).shown(), s@, style),
            final(self).same_frame(old(self)),
    {
        let _ = self.print_output(StyledBlock::line(s, style));
    }

    /// Rewrites a block. One that was cleared away shows again.
    pub fn set_block(&mut self, id: usize, block: StyledBlock)
        ensures
            final(self).shown() == rewritten(old(self).shown(), id as int, block@),
            final(self).same_frame(old(self)),
    {
        if id < self.blocks.len() {
            self.blocks.set(id, Some(block));
        }
        assert(self.shown() =~= rewritten(old(self).shown(), id as int, block@));
    }

    /// Clears all output; the next redraw clears the terminal.
    pub fn clear_output(&mut self)
        ensures
            final(self).shown() == cleared(old(self).shown()),
            final(self).wiped,
            final(self).status == old(self).status,
            final(self).buffer == old(self).buffer,
            final(self).cursor == old(self).cursor,
            final(self).width == old(self).width,
            final(self).skin == old(self).skin,
    {
        let mut i: usize = 0;
        while i < self.blocks.len()
            invariant
                i <= self.blocks.len(),
                self.blocks.len() == old(self).blocks.len(),
                self.same_frame(old(self)),
                forall|j: int| 0 <= j < i ==> (#[trigger] self.blocks@[j]) is None,
            decreases self.blocks.len() - i,
        {
            self.blocks.set(i, None);
            i += 1;
        }
        self.wiped = true;
        assert(self.shown() =~= cleared(old(self).shown()));
    }

    /// What a redraw writes before the blocks: the clearing sequence, once
    /// after the output was cleared.
    pub fn take_clear(&mut self) -> (r: String)
        ensures
            r@ == if old(self).wiped {
                CLEAR_SCREEN@
            } else {
                Seq::<char>::empty()
            },
            !final(self).wiped,
            final(self).shown() == old(self).shown(),
            final(self).status == old(self).status,
            final(self).buffer == old(self).buffer,
            final(self).cursor == old(self).cursor,
            final(self).width == old(self).width,
            final(self).skin == old(self).skin,
    {
        let r = if self.wiped { CLEAR_SCREEN.to_owned() } else { String::new() };
        self.wiped = false;
        assert(!old(self).wiped ==> r@ =~= Seq::<char>::empty());
        r
    }

    /// Shows a status line.
    pub fn set_status_line(&mut self, block: StyledBlock)
        ensures
            final(self).shown() == old(self).shown(),
            final(self).status == Some(block),
            final(self).buffer == old(self).buffer,
            final(self).cursor == old(self).cursor,
            final(self).width == old(self).width,
            final(self).skin == old(self).skin,
            final(self).wiped == old(self).wiped,
    {
        self.status = Some(block);
    }

    /// Puts a text into the prompt.
    pub fn set_buffer(&mut self, s: String, cursor: usize)
        ensures
            final(self).shown() == old(self).shown(),
            final(self).buffer == s,
            final(self).cursor == cursor,
            final(self).status == old(self).status,
            final(self).width == old(self).width,
            final(self).skin == old(self).skin,
            final(self).wiped == old(self).wiped,
    {
        self.buffer = s;
        self.cursor = cursor;
    }
}

/// How wide markdown is wrapped on a terminal of a width.
pub open spec fn wrap_width(width: usize) -> usize {
    if width < 40 {
        40
    } else {
        width
    }
}

/// Whether a markdown text can be drawn in a skin on a terminal of a width.
pub open spec fn can_draw(skin: MadSkin, width: usize, md: Seq<char>) -> bool {
    markdown_reader::can_wrap(skin, md, wrap_width(width))
}

/// Whether a markdown text can be drawn in a skin on a terminal of a width.
pub fn can_draw_block(skin: &MadSkin, width: usize, md: &str) -> (r: bool)
    ensures
        r == can_draw(*skin, width, md@),
{
    let w: usize = if width < 40 { 40 } else { width };
    markdown::can_render_with_skin(md, w, skin)
}

/// A markdown text in a skin as a block, wrapped to the terminal but to no less than
/// forty columns.
pub fn render_md_block(skin: &MadSkin, width: usize, md: &str) -> (r: StyledBlock)
    requires
        can_draw(*skin, width, md@),
    ensures
        r@ == markdown::rendered(*skin, md@, wrap_width(width)),
{
    let w: usize = if width < 40 { 40 } else { width };
    StyledBlock::new(markdown::render_markdown_with_skin(md, w, skin))
}

// ---------------------------------------------------------------------------
// Cache figures
// ---------------------------------------------------------------------------

/// What the prompt cache did over a session.
#[derive(Clone, Copy, Debug, PartialEq, Eq, Structural)]
pub struct CacheStats {
    pub total_input_tokens: u64,
    pub total_output_tokens: u64,
    pub total_cache_read_tokens: u64,
    pub total_cache_creation_tokens: u64,
    pub request_count: u64,
}

impl Default for CacheStats {
    fn default() -> (r: CacheStats)
        ensures
            r == CacheStats::zero(),
    {
        CacheStats {
            total_input_tokens: 0,
            total_output_tokens: 0,
            total_cache_read_tokens: 0,
            total_cache_creation_tokens: 0,
            request_count: 0,
        }
    }
}

/// How a token count is scaled: divided by `divisor`, shown with `decimals`
/// decimals, and followed by `suffix`.
#[derive(Clone, Copy, Debug, PartialEq, Eq, Structural)]
pub struct TokenScale {
    pub divisor: u64,
    pub decimals: u8,
    pub suffix: Option<char>,
}

/// The figures of the status line, each already written out.
pub struct CacheFigures {
    pub input: String,
    pub output: String,
    pub read: String,
    pub rate: String,
}

impl CacheStats {
    /// Nothing yet.
    pub open spec fn zero() -> CacheStats {
        CacheStats {
            total_input_tokens: 0,
            total_output_tokens: 0,
            total_cache_read_tokens: 0,
            total_cache_creation_tokens: 0,
            request_count: 0,
        }
    }

    /// Whether one more request can be counted.
    pub open spec fn has_room(self, input: u32, output: u32, read: u32, created: u32) -> bool {
        &&& self.total_input_tokens + input <= u64::MAX
        &&& self.total_output_tokens + output <= u64::MAX
        &&& self.total_cache_read_tokens + read <= u64::MAX
        &&& self.total_cache_creation_tokens + created <= u64::MAX
        &&& self.request_count < u64::MAX
    }

    /// The figures with one more request counted.
    pub open spec fn plus(self, input: u32, output: u32, read: u32, created: u32) -> CacheStats {
        CacheStats {
            total_input_tokens: (self.total_input_tokens + input) as u64,
            total_output_tokens: (self.total_output_tokens + output) as u64,
            total_cache_read_tokens: (self.total_cache_read_tokens + read) as u64,
            total_cache_creation_tokens: (self.total_cache_creation_tokens + created) as u64,
            request_count: (self.request_count + 1) as u64,
        }
    }

    /// Whether one more request can be counted.
    pub fn can_update(&self, input: u32, output: u32, read: u32, created: u32) -> (r: bool)
        ensures
            r == self.has_room(input, output, read, created),
    {
        self.total_input_tokens <= u64::MAX - input as u64 && self.total_output_tokens <= u64::MAX
            - output as u64 && self.total_cache_read_tokens <= u64::MAX - read as u64
            && self.total_cache_creation_tokens <= u64::MAX - created as u64 && self.request_count
            < u64::MAX
    }

    /// Counts one more request.
    pub fn update(&mut self, input: u32, output: u32, read: u32, created: u32)
        requires
            old(self).has_room(input, output, read, created),
        ensures
            *final(self) == old(self).plus(input, output, read, created),
    {
        self.total_input_tokens += input as u64;
        self.total_output_tokens += output as u64;
        self.total_cache_read_tokens += read as u64;
        self.total_cache_creation_tokens += created as u64;
        self.request_count += 1;
    }

    /// How a token count is scaled.
    pub open spec fn scale_of(n: u64) -> TokenScale {
        if n >= 1_000_000 {
            TokenScale {
                divisor: 1_000_000,
                decimals: if n < 10_000_000 {
                    1
                } else {
                    0
                },
                suffix: Some('m'),
            }
        } else if n >= 1000 {
            TokenScale {
                divisor: 1000,
                decimals: if n < 10_000 {
                    1
                } else {
                    0
                },
                suffix: Some('k'),
            }
        } else {
            TokenScale { divisor: 1, decimals: 0, suffix: None }
        }
    }

    /// How a token count is scaled: by millions from a million on, by
    /// thousands from a thousand on, and with a decimal while less than ten of
    /// them are shown.
    pub fn token_scale(n: u64) -> (r: TokenScale)
        ensures
            r == CacheStats::scale_of(n),
    {
        if n >= 1_000_000 {
            let decimals: u8 = if n < 10_000_000 { 1 } else { 0 };
            TokenScale { divisor: 1_000_000, decimals, suffix: Some('m') }
        } else if n >= 1000 {
            let decimals: u8 = if n < 10_000 { 1 } else { 0 };
            TokenScale { divisor: 1000, decimals, suffix: Some('k') }
        } else {
            TokenScale { divisor: 1, decimals: 0, suffix: None }
        }
    }

    /// Writes a token count out. `scaled` is the count divided and rounded as
    /// `token_scale` says; a count under a thousand is written as it is.
    pub fn fmt_tokens(n: u64, scaled: &str) -> (r: String)
        ensures
            r@ == match CacheStats::scale_of(n).suffix {
                Some(c) => scaled@.push(c),
                None => text::decimal(n as nat),
            },
    {
        match CacheStats::token_scale(n).suffix {
            Some(c) => {
                let mut r = scaled.to_owned();
                r.push(c);
                r
            },
            None => text::number(n),
        }
    }

    /// The status line.
    pub open spec fn status_line(self, f: CacheFigures) -> BlockModel {
        if self.request_count == 0 {
            seq![(" cache: \u{2014}"@, s_cache_miss())]
        } else {
            seq![
                (
                    " cache: \u{2191}"@ + f.input@ + " \u{2193}"@ + f.output@ + " R"@ + f.read@
                        + " CH"@ + f.rate@ + "%"@,
                    s_cache_hit(),
                ),
            ]
        }
    }

    /// The status line: a dash before the first request, then the figures.
    /// It is the same at every terminal width.
    pub fn to_status_block(&self, _terminal_width: usize, f: &CacheFigures) -> (r: StyledBlock)
        ensures
            r@ == self.status_line(*f),
    {
        if self.request_count == 0 {
            return StyledBlock::line(" cache: \u{2014}".to_owned(), s_cache_miss());
        }
        let mut s = text::cat6(
            " cache: \u{2191}",
            f.input.as_str(),
            " \u{2193}",
            f.output.as_str(),
            " R",
            f.read.as_str(),
        );
        s.append(" CH");
        s.append(f.rate.as_str());
        s.append("%");
        StyledBlock::line(s, s_cache_hit())
    }
}

// ---------------------------------------------------------------------------
// Slash commands
// ---------------------------------------------------------------------------

/// The texts of a table of two columns.
pub open spec fn pair_views(v: Seq<(&str, &str)>) -> Seq<(Seq<char>, Seq<char>)> {
    Seq::new(v.len(), |i: int| (v[i].0@, v[i].1@))
}

/// The commands and what they do.
pub open spec fn command_table() -> Seq<(Seq<char>, Seq<char>)> {
    seq![
        ("/model"@, "Change model   (/model <name>)"@),
        ("/models"@, "List available models"@),
        ("/sessions"@, "List saved sessions"@),
        ("/resume"@, "Resume a session   (/resume <id>)"@),
        ("/new"@, "Create a new session   (/new [id])"@),
        ("/compact"@, "Compact session history"@),
        ("/interrupt"@, "Interrupt the agent"@),
        ("/clear"@, "Clear output"@),
        ("/status"@, "Check omega-loop connection"@),
        ("/help"@, "Show this help"@),
        ("/quit"@, "Exit omega-tui"@),
    ]
}

/// The commands and what they do.
pub fn slash_commands() -> (r: Vec<(&'static str, &'static str)>)
    ensures
        pair_views(r@) == command_table(),
{
    let r: Vec<(&'static str, &'static str)> =
        vec![
        ("/model", "Change model   (/model <name>)"),
        ("/models", "List available models"),
        ("/sessions", "List saved sessions"),
        ("/resume", "Resume a session   (/resume <id>)"),
        ("/new", "Create a new session   (/new [id])"),
        ("/compact", "Compact session history"),
        ("/interrupt", "Interrupt the agent"),
        ("/clear", "Clear output"),
        ("/status", "Check omega-loop connection"),
        ("/help", "Show this help"),
        ("/quit", "Exit omega-tui"),
    ];
    assert(pair_views(r@) =~= command_table());
    r
}

/// The words that are commands.
pub open spec fn known_commands() -> Seq<Seq<char>> {
    seq![
        "/quit"@,
        "/exit"@,
        "/status"@,
        "/help"@,
        "/clear"@,
        "/models"@,
        "/sessions"@,
        "/interrupt"@,
        "/compact"@,
        "/model"@,
        "/new"@,
        "/resume"@,
    ]
}

/// Whether a word is a command.
fn is_known(cmd: &str) -> (r: bool)
    ensures
        r == known_commands().contains(cmd@),
{
    let all: Vec<&str> =
        vec![
        "/quit",
        "/exit",
        "/status",
        "/help",
        "/clear",
        "/models",
        "/sessions",
        "/interrupt",
        "/compact",
        "/model",
        "/new",
        "/resume",
    ];
    assert(text::str_views(all@) =~= known_commands());
    text::among(&all, cmd)
}

/// The first command of a table that begins with a text.
pub open spec fn first_command(table: Seq<(Seq<char>, Seq<char>)>, input: Seq<char>) -> Option<
    Seq<char>,
>
    decreases table.len(),
{
    if table.len() == 0 {
        None
    } else if text::begins_with(table[0].0, input) {
        Some(table[0].0)
    } else {
        first_command(table.skip(1), input)
    }
}

/// What a text that begins with a slash is completed to: the first command
/// that begins with it, and a blank.
pub open spec fn completion(input: Seq<char>) -> Option<Seq<char>> {
    if input.len() > 0 && input[0] == '/' {
        match first_command(command_table(), input) {
            Some(name) => Some(name.push(' ')),
            None => None,
        }
    } else {
        None
    }
}

/// Completes a command.
pub fn complete(input: &str) -> (r: Option<String>)
    ensures
        match r {
            Some(s) => completion(input@) == Some(s@),
            None => completion(input@) is None,
        },
{
    if !text::starts_with_char(input, '/') {
        return None;
    }
    let table = slash_commands();
    let mut i: usize = 0;
    assert(command_table().skip(0) =~= command_table());
    while i < table.len()
        invariant
            i <= table.len(),
            pair_views(table@) == command_table(),
            first_command(command_table(), input@) == first_command(
                command_table().skip(i as int),
                input@,
            ),
            input@.len() > 0 && input@[0] == '/',
        decreases table.len() - i,
    {
        assert(pair_views(table@)[i as int] == (table@[i as int].0@, table@[i as int].1@));
        if text::starts_with(table[i].0, input) {
            let mut out = table[i].0.to_owned();
            out.push(' ');
            return Some(out);
        }
        assert(command_table().skip(i as int).skip(1) =~= command_table().skip(i + 1));
        i += 1;
    }
    assert(command_table().skip(i as int) =~= seq![]);
    None
}

// ---------------------------------------------------------------------------
// Commands to the daemon
// ---------------------------------------------------------------------------

/// What the client asks of the daemon.
#[derive(Debug)]
pub enum DaemonCmd {
    Run { session_id: String, content: String },
    SetModel { session_id: String, model: String },
    ListModels,
    ListSessions,
    Resume(String),
    Compact(String),
    Interrupt(String),
    Shutdown,
}

/// What a command to the daemon says.
pub enum CmdModel {
    Run { session_id: Seq<char>, content: Seq<char> },
    SetModel { session_id: Seq<char>, model: Seq<char> },
    ListModels,
    ListSessions,
    Resume(Seq<char>),
    Compact(Seq<char>),
    Interrupt(Seq<char>),
    Shutdown,
}

impl View for DaemonCmd {
    type V = CmdModel;

    open spec fn view(&self) -> CmdModel {
        match self {
            DaemonCmd::Run { session_id, content } => CmdModel::Run {
                session_id: session_id@,
                content: content@,
            },
            DaemonCmd::SetModel { session_id, model } => CmdModel::SetModel {
                session_id: session_id@,
                model: model@,
            },
            DaemonCmd::ListModels => CmdModel::ListModels,
            DaemonCmd::ListSessions => CmdModel::ListSessions,
            DaemonCmd::Resume(s) => CmdModel::Resume(s@),
            DaemonCmd::Compact(s) => CmdModel::Compact(s@),
            DaemonCmd::Interrupt(s) => CmdModel::Interrupt(s@),
            DaemonCmd::Shutdown => CmdModel::Shutdown,
        }
    }
}

/// What a list of commands to the daemon says.
pub open spec fn cmd_views(v: Seq<DaemonCmd>) -> Seq<CmdModel> {
    Seq::new(v.len(), |i: int| v[i]@)
}

/// Sends a command: puts it behind those that wait.
fn send(commands: &mut Vec<DaemonCmd>, cmd: DaemonCmd)
    ensures
        cmd_views(final(commands)@) == cmd_views(old(commands)@).push(cmd@),
{
    commands.push(cmd);
    assert(cmd_views(commands@) =~= cmd_views(old(commands)@).push(cmd@));
}

// ---------------------------------------------------------------------------
// Submitted lines
// ---------------------------------------------------------------------------

/// The session that the client is in.
pub struct AppState {
    pub session_id: String,
    pub model: String,
    pub cache: CacheStats,
}

/// What the client does after a submitted line.
#[derive(Debug, Clone, Copy, PartialEq, Eq, Structural)]
pub enum LineOutcome {
    Continue,
    Quit,
    /// A ping is under way; the answer is due within the time limit.
    StatusRequested,
}

/// What a submitted line leaves behind.
pub struct LineEffect {
    pub session_id: Seq<char>,
    pub model: Seq<char>,
    pub blocks: Seq<Option<BlockModel>>,
    pub wiped: bool,
    pub sent: Seq<CmdModel>,
    pub outcome: LineOutcome,
}

/// The lines of the help, from the `n`-th command on.
pub open spec fn help_lines(table: Seq<(Seq<char>, Seq<char>)>) -> BlockModel {
    Seq::new(
        table.len(),
        |i: int|
            (
                "  "@ + text::padded(table[i].0, 14) + " "@ + table[i].1 + "\n"@,
                s_assistant(),
            ),
    )
}

/// The help.
pub open spec fn help_block() -> BlockModel {
    seq![("Available commands:\n"@, s_system())] + help_lines(command_table())
}

/// What a line that goes to the agent does: it is shown and sent.
pub open spec fn user_effect(line: Seq<char>, was: LineEffect) -> LineEffect {
    LineEffect {
        blocks: with_line(was.blocks, "\u{25b8} "@ + line, s_user()),
        sent: was.sent.push(CmdModel::Run { session_id: was.session_id, content: line }),
        outcome: LineOutcome::Continue,
        ..was
    }
}

/// What a command does. `words` are the words of the line, and `fresh` is a
/// name for a session that gets none.
pub open spec fn command_effect(words: Seq<Seq<char>>, fresh: Seq<char>, was: LineEffect) -> LineEffect {
    let cmd = words[0];
    let on = LineEffect { outcome: LineOutcome::Continue, ..was };
    if cmd == "/quit"@ || cmd == "/exit"@ {
        LineEffect { outcome: LineOutcome::Quit, ..was }
    } else if cmd == "/status"@ {
        LineEffect {
            sent: was.sent.push(CmdModel::ListModels),
            outcome: LineOutcome::StatusRequested,
            ..was
        }
    } else if cmd == "/help"@ {
        LineEffect { blocks: with_block(was.blocks, help_block()), ..on }
    } else if cmd == "/clear"@ {
        LineEffect { blocks: cleared(was.blocks), wiped: true, ..on }
    } else if cmd == "/models"@ {
        LineEffect {
            sent: was.sent.push(CmdModel::ListModels),
            blocks: with_line(was.blocks, "Fetching models\u{2026}"@, s_system()),
            ..on
        }
    } else if cmd == "/sessions"@ {
        LineEffect {
            sent: was.sent.push(CmdModel::ListSessions),
            blocks: with_line(was.blocks, "Fetching sessions\u{2026}"@, s_system()),
            ..on
        }
    } else if cmd == "/interrupt"@ {
        LineEffect {
            sent: was.sent.push(CmdModel::Interrupt(was.session_id)),
            blocks: with_line(was.blocks, "Interrupted."@, s_system()),
            ..on
        }
    } else if cmd == "/compact"@ {
        LineEffect {
            sent: was.sent.push(CmdModel::Compact(was.session_id)),
            blocks: with_line(was.blocks, "Compacting\u{2026}"@, s_system()),
            ..on
        }
    } else if cmd == "/model"@ {
        if words.len() > 1 {
            LineEffect {
                model: words[1],
                sent: was.sent.push(
                    CmdModel::SetModel { session_id: was.session_id, model: words[1] },
                ),
                ..on
            }
        } else {
            LineEffect {
                blocks: with_line(was.blocks, "Usage: /model <model-name>"@, s_error()),
                ..on
            }
        }
    } else if cmd == "/new"@ {
        let name = if words.len() > 1 {
            words[1]
        } else {
            fresh
        };
        LineEffect {
            session_id: name,
            blocks: with_line(cleared(was.blocks), "New session: "@ + name, s_system()),
            wiped: true,
            sent: was.sent.push(CmdModel::Run { session_id: name, content: seq![] }),
            ..on
        }
    } else if words.len() > 1 {
        LineEffect {
            session_id: words[1],
            blocks: with_line(cleared(was.blocks), "Resuming: "@ + words[1], s_system()),
            wiped: true,
            sent: was.sent.push(CmdModel::Resume(words[1])),
            ..on
        }
    } else {
        LineEffect {
            blocks: with_line(was.blocks, "Usage: /resume <session-id>"@, s_error()),
            ..on
        }
    }
}

/// What a submitted line does. White space alone does nothing; a line that
/// begins with a slash and a known command is a command; any other line goes
/// to the agent.
pub open spec fn line_effect(line: Seq<char>, fresh: Seq<char>, was: LineEffect) -> LineEffect {
    if text::trimmed(line).len() == 0 {
        LineEffect { outcome: LineOutcome::Continue, ..was }
    } else if line[0] != '/' {
        user_effect(line, was)
    } else if !known_commands().contains(text::words(line)[0]) {
        user_effect(line, was)
    } else {
        command_effect(text::words(line), fresh, was)
    }
}

/// What the client holds before a line.
pub open spec fn before_line(
    app: AppState,
    screen: Screen,
    commands: Seq<DaemonCmd>,
    outcome: LineOutcome,
) -> LineEffect {
    LineEffect {
        session_id: app.session_id@,
        model: app.model@,
        blocks: screen.shown(),
        wiped: screen.wiped,
        sent: cmd_views(commands),
        outcome,
    }
}

/// The help as styled text.
fn help_text() -> (r: StyledText)
    ensures
        r@ == help_block(),
{
    let table = slash_commands();
    let mut st = StyledText::of(Span::new("Available commands:\n".to_owned(), s_system()));
    let ghost head = st@;
    let ghost lines = help_lines(command_table());
    let mut i: usize = 0;
    assert(head + lines.take(0) =~= head);
    while i < table.len()
        invariant
            i <= table.len(),
            pair_views(table@) == command_table(),
            lines == help_lines(command_table()),
            st@ == head + lines.take(i as int),
        decreases table.len() - i,
    {
        assert(pair_views(table@)[i as int] == (table@[i as int].0@, table@[i as int].1@));
        let name = text::pad(table[i].0, 14);
        let line = text::cat5("  ", name.as_str(), " ", table[i].1, "\n");
        st.push(Span::new(line, s_assistant()));
        i += 1;
        assert(st@ =~= head + lines.take(i as int));
    }
    assert(lines.take(i as int) =~= lines);
    st
}

/// Shows a line and sends it to the agent.
fn send_user_line(line: &str, app: &AppState, screen: &mut Screen, commands: &mut Vec<DaemonCmd>)
    ensures
        before_line(*app, *final(screen), final(commands)@, LineOutcome::Continue) == user_effect(
            line@,
            before_line(*app, *old(screen), old(commands)@, LineOutcome::Continue),
        ),
        final(screen).same_frame(old(screen)),
{
    screen.print_line(text::cat2("\u{25b8} ", line), s_user());
    send(
        commands,
        DaemonCmd::Run { session_id: app.session_id.clone(), content: line.to_owned() },
    );
}

/// A word begins where a text without white space before it begins.
proof fn first_word_exists(line: Seq<char>)
    requires
        text::trimmed(line).len() > 0,
    ensures
        text::words(line).len() > 0,
{
    text::trimmed_start_bounds(line);
    if text::trimmed_start(line).len() == 0 {
        assert(text::trimmed_end(text::trimmed_start(line)).len() == 0);
    }
}

/// Does what a submitted line says. `fresh` names a new session that gets no
/// name.
pub fn process_line_with(
    line: &str,
    app: &mut AppState,
    screen: &mut Screen,
    commands: &mut Vec<DaemonCmd>,
    fresh: &str,
) -> (r: LineOutcome)
    ensures
        before_line(*final(app), *final(screen), final(commands)@, r) == line_effect(
            line@,
            fresh@,
            before_line(*old(app), *old(screen), old(commands)@, r),
        ),
        r == line_effect(
            line@,
            fresh@,
            before_line(*old(app), *old(screen), old(commands)@, LineOutcome::Continue),
        ).outcome,
        final(app).cache == old(app).cache,
        final(screen).status == old(screen).status,
        final(screen).buffer == old(screen).buffer,
        final(screen).cursor == old(screen).cursor,
        final(screen).width == old(screen).width,
        final(screen).skin == old(screen).skin,
{
    if text::trim(line).as_str().is_empty() {
        return LineOutcome::Continue;
    }
    proof {
        first_word_exists(line@);
    }
    if !text::starts_with_char(line, '/') {
        assert(line@.len() > 0) by {
            if line@.len() == 0 {
                assert(text::trimmed_start(line@) =~= line@);
            }
        }
        send_user_line(line, app, screen, commands);
        return LineOutcome::Continue;
    }
    let words = text::split_words(line);
    let ghost w = text::words(line@);
    assert(w[0] == words@[0]@);
    assert(w.len() > 1 ==> w[1] == words@[1]@);
    let cmd = words[0].as_str();
    if !is_known(cmd) {
        send_user_line(line, app, screen, commands);
        return LineOutcome::Continue;
    }
    if text::same(cmd, "/quit") || text::same(cmd, "/exit") {
        return LineOutcome::Quit;
    }
    if text::same(cmd, "/status") {
        send(commands, DaemonCmd::ListModels);
        return LineOutcome::StatusRequested;
    }
    if text::same(cmd, "/help") {
        let _ = screen.print_output(StyledBlock::new(help_text()));
    } else if text::same(cmd, "/clear") {
        screen.clear_output();
    } else if text::same(cmd, "/models") {
        send(commands, DaemonCmd::ListModels);
        screen.print_line("Fetching models\u{2026}".to_owned(), s_system());
    } else if text::same(cmd, "/sessions") {
        send(commands, DaemonCmd::ListSessions);
        screen.print_line("Fetching sessions\u{2026}".to_owned(), s_system());
    } else if text::same(cmd, "/interrupt") {
        send(commands, DaemonCmd::Interrupt(app.session_id.clone()));
        screen.print_line("Interrupted.".to_owned(), s_system());
    } else if text::same(cmd, "/compact") {
        send(commands, DaemonCmd::Compact(app.session_id.clone()));
        screen.print_line("Compacting\u{2026}".to_owned(), s_system());
    } else if text::same(cmd, "/model") {
        if words.len() > 1 {
            app.model = words[1].clone();
            send(
                commands,
                DaemonCmd::SetModel { session_id: app.session_id.clone(), model: words[1].clone() },
            );
        } else {
            screen.print_line("Usage: /model <model-name>".to_owned(), s_error());
        }
    } else if text::same(cmd, "/new") {
        let name = if words.len() > 1 { words[1].clone() } else { fresh.to_owned() };
        app.session_id = name.clone();
        screen.clear_output();
        let content = String::new();
        assert(content@ =~= seq![]);
        send(commands, DaemonCmd::Run { session_id: name.clone(), content });
        screen.print_line(text::cat2("New session: ", name.as_str()), s_system());
    } else {
        if words.len() > 1 {
            let name = words[1].clone();
            app.session_id = name.clone();
            screen.clear_output();
            send(commands, DaemonCmd::Resume(name.clone()));
            screen.print_line(text::cat2("Resuming: ", name.as_str()), s_system());
        } else {
            screen.print_line("Usage: /resume <session-id>".to_owned(), s_error());
        }
    }
    LineOutcome::Continue
}

// ---------------------------------------------------------------------------
// Fresh names
// ---------------------------------------------------------------------------

/// Whether a character is a hexadecimal digit in lower case.
pub open spec fn is_hex(c: char) -> bool {
    '0' <= c <= '9' || 'a' <= c <= 'f'
}

/// Whether a text is a UUID in its usual form: hexadecimal digits in groups of
/// eight, four, four, four and twelve, with hyphens between.
pub open spec fn is_uuid(s: Seq<char>) -> bool {
    &&& s.len() == 36
    &&& forall|i: int|
        0 <= i < 36 ==> if i == 8 || i == 13 || i == 18 || i == 23 {
            s[i] == '-'
        } else {
            is_hex(#[trigger] s[i])
        }
}

/// Whether a text can be the name of a session that got none.
pub open spec fn is_fresh(s: Seq<char>) -> bool {
    s.len() == 8 && forall|i: int| 0 <= i < 8 ==> is_hex(#[trigger] s[i])
}

/// `uuid::Uuid::new_v4` and its `to_string`: a random UUID in its usual form.
#[verifier::external_body]
fn random_uuid() -> (r: String)
    ensures
        is_uuid(r@),
{
    uuid::Uuid::new_v4().to_string()
}

/// A name for a session that gets none: the first eight digits of a random
/// UUID.
pub fn fresh_name() -> (r: String)
    ensures
        is_fresh(r@),
{
    let id = random_uuid();
    let r = text::take_chars(id.as_str(), 8);
    assert(r@ =~= id@.take(8));
    assert forall|i: int| 0 <= i < 8 implies is_hex(#[trigger] r@[i]) by {
        assert(r@[i] == id@[i]);
    }
    r
}

/// The name of the session that a client starts in.
pub fn first_session() -> (r: String)
    ensures
        r@.len() == 12,
        r@.take(4) == "tui-"@,
        is_fresh(r@.skip(4)),
{
    let name = fresh_name();
    let r = text::cat2("tui-", name.as_str());
    proof {
        reveal_strlit("tui-");
        assert(r@.take(4) =~= "tui-"@);
        assert(r@.skip(4) =~= name@);
    }
    r
}

/// Does what a submitted line says. A new session that gets no name is given a
/// fresh one.
pub fn process_line(
    line: &str,
    app: &mut AppState,
    screen: &mut Screen,
    commands: &mut Vec<DaemonCmd>,
) -> (r: LineOutcome)
    ensures
        exists|fresh: Seq<char>| #[trigger]
            is_fresh(fresh) && before_line(*final(app), *final(screen), final(commands)@, r)
                == line_effect(
                line@,
                fresh,
                before_line(*old(app), *old(screen), old(commands)@, r),
            ) && r == line_effect(
                line@,
                fresh,
                before_line(*old(app), *old(screen), old(commands)@, LineOutcome::Continue),
            ).outcome,
        final(app).cache == old(app).cache,
        final(screen).status == old(screen).status,
        final(screen).buffer == old(screen).buffer,
        final(screen).cursor == old(screen).cursor,
        final(screen).width == old(screen).width,
        final(screen).skin == old(screen).skin,
{
    let fresh = fresh_name();
    process_line_with(line, app, screen, commands, fresh.as_str())
}

// ---------------------------------------------------------------------------
// Laws
// ---------------------------------------------------------------------------

/// A line of white space does nothing.
pub proof fn blank_lines_do_nothing(line: Seq<char>, fresh: Seq<char>, was: LineEffect)
    requires
        text::trimmed(line).len() == 0,
    ensures
        line_effect(line, fresh, was) == (LineEffect { outcome: LineOutcome::Continue, ..was }),
{
}

/// What is no command goes to the agent as it is, though it begin with a slash:
/// it is shown and sent, and nothing else changes.
pub proof fn what_is_no_command_is_said(line: Seq<char>, fresh: Seq<char>, was: LineEffect)
    requires
        text::trimmed(line).len() > 0,
        line[0] != '/' || !known_commands().contains(text::words(line)[0]),
    ensures
        ({
            let e = line_effect(line, fresh, was);
            &&& e.sent == was.sent.push(
                CmdModel::Run { session_id: was.session_id, content: line },
            )
            &&& e.blocks == with_line(was.blocks, "\u{25b8} "@ + line, s_user())
            &&& e.session_id == was.session_id
            &&& e.model == was.model
            &&& e.outcome is Continue
        }),
{
}

/// A command is not said to the agent: it sends one request at most, and one that
/// hands text over hands over none.
pub proof fn commands_are_not_said(line: Seq<char>, fresh: Seq<char>, was: LineEffect)
    requires
        text::trimmed(line).len() > 0,
        line[0] == '/',
        known_commands().contains(text::words(line)[0]),
    ensures
        ({
            let e = line_effect(line, fresh, was);
            &&& e.sent == was.sent || exists|cmd: CmdModel|
                e.sent == #[trigger] was.sent.push(cmd) && (cmd is Run ==> cmd->content.len() == 0)
        }),
{
    let e = line_effect(line, fresh, was);
    if e.sent.len() > was.sent.len() {
        assert(e.sent == was.sent.push(e.sent.last()));
    }
}

/// Clearing leaves no block.
pub proof fn clearing_leaves_nothing(blocks: Seq<Option<BlockModel>>, i: int)
    requires
        0 <= i < blocks.len(),
    ensures
        cleared(blocks).len() == blocks.len(),
        cleared(blocks)[i] is None,
{
}

/// A completed command begins with what was typed.
pub proof fn completion_goes_on_from_the_input(input: Seq<char>)
    requires
        completion(input) is Some,
    ensures
        text::begins_with(completion(input)->0, input),
        completion(input)->0.last() == ' ',
{
    first_command_begins_with(command_table(), input);
    let name = first_command(command_table(), input)->0;
    assert(name.push(' ').subrange(0, input.len() as int) =~= name.subrange(0, input.len() as int));
}

/// The first command that begins with a text does so.
proof fn first_command_begins_with(table: Seq<(Seq<char>, Seq<char>)>, input: Seq<char>)
    ensures
        match first_command(table, input) {
            Some(name) => text::begins_with(name, input),
            None => true,
        },
    decreases table.len(),
{
    if table.len() > 0 && !text::begins_with(table[0].0, input) {
        first_command_begins_with(table.skip(1), input);
    }
}

/// The names of the commands differ, are words, and are known.
proof fn commands_are_known()
    ensures
        "/quit"@ != "/exit"@,
        "/quit"@ != "/status"@,
        "/quit"@ != "/help"@,
        "/quit"@ != "/clear"@,
        "/quit"@ != "/models"@,
        "/quit"@ != "/sessions"@,
        "/quit"@ != "/interrupt"@,
        "/quit"@ != "/compact"@,
        "/quit"@ != "/model"@,
        "/quit"@ != "/new"@,
        "/quit"@ != "/resume"@,
        "/exit"@ != "/status"@,
        "/exit"@ != "/help"@,
        "/exit"@ != "/clear"@,
        "/exit"@ != "/models"@,
        "/exit"@ != "/sessions"@,
        "/exit"@ != "/interrupt"@,
        "/exit"@ != "/compact"@,
        "/exit"@ != "/model"@,
        "/exit"@ != "/new"@,
        "/exit"@ != "/resume"@,
        "/status"@ != "/help"@,
        "/status"@ != "/clear"@,
        "/status"@ != "/models"@,
        "/status"@ != "/sessions"@,
        "/status"@ != "/interrupt"@,
        "/status"@ != "/compact"@,
        "/status"@ != "/model"@,
        "/status"@ != "/new"@,
        "/status"@ != "/resume"@,
        "/help"@ != "/clear"@,
        "/help"@ != "/models"@,
        "/help"@ != "/sessions"@,
        "/help"@ != "/interrupt"@,
        "/help"@ != "/compact"@,
        "/help"@ != "/model"@,
        "/help"@ != "/new"@,
        "/help"@ != "/resume"@,
        "/clear"@ != "/models"@,
        "/clear"@ != "/sessions"@,
        "/clear"@ != "/interrupt"@,
        "/clear"@ != "/compact"@,
        "/clear"@ != "/model"@,
        "/clear"@ != "/new"@,
        "/clear"@ != "/resume"@,
        "/models"@ != "/sessions"@,
        "/models"@ != "/interrupt"@,
        "/models"@ != "/compact"@,
        "/models"@ != "/model"@,
        "/models"@ != "/new"@,
        "/models"@ != "/resume"@,
        "/sessions"@ != "/interrupt"@,
        "/sessions"@ != "/compact"@,
        "/sessions"@ != "/model"@,
        "/sessions"@ != "/new"@,
        "/sessions"@ != "/resume"@,
        "/interrupt"@ != "/compact"@,
        "/interrupt"@ != "/model"@,
        "/interrupt"@ != "/new"@,
        "/interrupt"@ != "/resume"@,
        "/compact"@ != "/model"@,
        "/compact"@ != "/new"@,
        "/compact"@ != "/resume"@,
        "/model"@ != "/new"@,
        "/model"@ != "/resume"@,
        "/new"@ != "/resume"@,
        text::is_word("/quit"@) && "/quit"@[0] == '/' && known_commands().contains("/quit"@),
        text::is_word("/exit"@) && "/exit"@[0] == '/' && known_commands().contains("/exit"@),
        text::is_word("/status"@) && "/status"@[0] == '/' && known_commands().contains("/status"@),
        text::is_word("/help"@) && "/help"@[0] == '/' && known_commands().contains("/help"@),
        text::is_word("/clear"@) && "/clear"@[0] == '/' && known_commands().contains("/clear"@),
        text::is_word("/models"@) && "/models"@[0] == '/' && known_commands().contains("/models"@),
        text::is_word("/sessions"@) && "/sessions"@[0] == '/' && known_commands().contains("/sessions"@),
        text::is_word("/interrupt"@) && "/interrupt"@[0] == '/' && known_commands().contains("/interrupt"@),
        text::is_word("/compact"@) && "/compact"@[0] == '/' && known_commands().contains("/compact"@),
        text::is_word("/model"@) && "/model"@[0] == '/' && known_commands().contains("/model"@),
        text::is_word("/new"@) && "/new"@[0] == '/' && known_commands().contains("/new"@),
        text::is_word("/resume"@) && "/resume"@[0] == '/' && known_commands().contains("/resume"@),
{
    reveal_strlit("/quit");
    assert("/quit"@.len() == 5 && "/quit"@[0] == '/' && "/quit"@[1] == 'q' && "/quit"@[2] == 'u');
    assert(known_commands()[0] == "/quit"@);
    reveal_strlit("/exit");
    assert("/exit"@.len() == 5 && "/exit"@[0] == '/' && "/exit"@[1] == 'e' && "/exit"@[2] == 'x');
    assert(known_commands()[1] == "/exit"@);
    reveal_strlit("/status");
    assert("/status"@.len() == 7 && "/status"@[0] == '/' && "/status"@[1] == 's' && "/status"@[2] == 't');
    assert(known_commands()[2] == "/status"@);
    reveal_strlit("/help");
    assert("/help"@.len() == 5 && "/help"@[0] == '/' && "/help"@[1] == 'h' && "/help"@[2] == 'e');
    assert(known_commands()[3] == "/help"@);
    reveal_strlit("/clear");
    assert("/clear"@.len() == 6 && "/clear"@[0] == '/' && "/clear"@[1] == 'c' && "/clear"@[2] == 'l');
    assert(known_commands()[4] == "/clear"@);
    reveal_strlit("/models");
    assert("/models"@.len() == 7 && "/models"@[0] == '/' && "/models"@[1] == 'm' && "/models"@[2] == 'o');
    assert(known_commands()[5] == "/models"@);
    reveal_strlit("/sessions");
    assert("/sessions"@.len() == 9 && "/sessions"@[0] == '/' && "/sessions"@[1] == 's' && "/sessions"@[2] == 'e');
    assert(known_commands()[6] == "/sessions"@);
    reveal_strlit("/interrupt");
    assert("/interrupt"@.len() == 10 && "/interrupt"@[0] == '/' && "/interrupt"@[1] == 'i' && "/interrupt"@[2] == 'n');
    assert(known_commands()[7] == "/interrupt"@);
    reveal_strlit("/compact");
    assert("/compact"@.len() == 8 && "/compact"@[0] == '/' && "/compact"@[1] == 'c' && "/compact"@[2] == 'o');
    assert(known_commands()[8] == "/compact"@);
    reveal_strlit("/model");
    assert("/model"@.len() == 6 && "/model"@[0] == '/' && "/model"@[1] == 'm' && "/model"@[2] == 'o');
    assert(known_commands()[9] == "/model"@);
    reveal_strlit("/new");
    assert("/new"@.len() == 4 && "/new"@[0] == '/' && "/new"@[1] == 'n' && "/new"@[2] == 'e');
    assert(known_commands()[10] == "/new"@);
    reveal_strlit("/resume");
    assert("/resume"@.len() == 7 && "/resume"@[0] == '/' && "/resume"@[1] == 'r' && "/resume"@[2] == 'e');
    assert(known_commands()[11] == "/resume"@);
}

/// The effect of a line that is one command.
proof fn a_command_takes_effect(
    cmd: Seq<char>,
    arg: Seq<char>,
    fresh: Seq<char>,
    was: LineEffect,
)
    requires
        text::is_word(cmd),
        text::is_word(arg),
        cmd[0] == '/',
        known_commands().contains(cmd),
    ensures
        line_effect(cmd, fresh, was) == command_effect(seq![cmd], fresh, was),
        line_effect(cmd + " "@ + arg, fresh, was) == command_effect(seq![cmd, arg], fresh, was),
{
    text::words_are_found(cmd, arg);
    assert((cmd + " "@ + arg)[0] == cmd[0]);
}

/// The client ends at the user's word, and at no other command.
pub proof fn commands_end_the_client(fresh: Seq<char>, was: LineEffect)
    ensures
        line_effect("/quit"@, fresh, was).outcome is Quit,
        line_effect("/exit"@, fresh, was).outcome is Quit,
        line_effect("/help"@, fresh, was).outcome is Continue,
        line_effect("/clear"@, fresh, was).outcome is Continue,
        line_effect("/status"@, fresh, was).outcome is StatusRequested,
{
    commands_are_known();
    a_command_takes_effect("/quit"@, "/new"@, fresh, was);
    a_command_takes_effect("/exit"@, "/new"@, fresh, was);
    a_command_takes_effect("/help"@, "/new"@, fresh, was);
    a_command_takes_effect("/clear"@, "/new"@, fresh, was);
    a_command_takes_effect("/status"@, "/new"@, fresh, was);
}

/// What the daemon is asked for by a command: the models, the saved sessions, to interrupt
/// the agent and to compact the session, each for the session of the client.
pub proof fn commands_ask_the_daemon(fresh: Seq<char>, was: LineEffect)
    ensures
        line_effect("/models"@, fresh, was).sent == was.sent.push(CmdModel::ListModels),
        line_effect("/status"@, fresh, was).sent == was.sent.push(CmdModel::ListModels),
        line_effect("/sessions"@, fresh, was).sent == was.sent.push(CmdModel::ListSessions),
        line_effect("/interrupt"@, fresh, was).sent == was.sent.push(
            CmdModel::Interrupt(was.session_id),
        ),
        line_effect("/compact"@, fresh, was).sent == was.sent.push(
            CmdModel::Compact(was.session_id),
        ),
        line_effect("/help"@, fresh, was).sent == was.sent,
        line_effect("/clear"@, fresh, was).sent == was.sent,
        line_effect("/quit"@, fresh, was).sent == was.sent,
{
    commands_are_known();
    a_command_takes_effect("/models"@, "/new"@, fresh, was);
    a_command_takes_effect("/status"@, "/new"@, fresh, was);
    a_command_takes_effect("/sessions"@, "/new"@, fresh, was);
    a_command_takes_effect("/interrupt"@, "/new"@, fresh, was);
    a_command_takes_effect("/compact"@, "/new"@, fresh, was);
    a_command_takes_effect("/help"@, "/new"@, fresh, was);
    a_command_takes_effect("/clear"@, "/new"@, fresh, was);
    a_command_takes_effect("/quit"@, "/new"@, fresh, was);
}

/// A model that the user names is the model from then on, and the daemon is told.
pub proof fn the_model_is_changed(name: Seq<char>, fresh: Seq<char>, was: LineEffect)
    requires
        text::is_word(name),
    ensures
        ({
            let e = line_effect("/model"@ + " "@ + name, fresh, was);
            &&& e.model == name
            &&& e.session_id == was.session_id
            &&& e.sent == was.sent.push(
                CmdModel::SetModel { session_id: was.session_id, model: name },
            )
        }),
        line_effect("/model"@, fresh, was).sent == was.sent,
        line_effect("/model"@, fresh, was).model == was.model,
{
    commands_are_known();
    a_command_takes_effect("/model"@, name, fresh, was);
}

/// A session that the user resumes, or begins under a name or under a fresh one, is the
/// session from then on; the screen is cleared, and the daemon is told.
pub proof fn the_session_is_changed(name: Seq<char>, fresh: Seq<char>, was: LineEffect)
    requires
        text::is_word(name),
    ensures
        ({
            let resumed = line_effect("/resume"@ + " "@ + name, fresh, was);
            let named = line_effect("/new"@ + " "@ + name, fresh, was);
            let begun = line_effect("/new"@, fresh, was);
            &&& resumed.session_id == name && resumed.wiped
            &&& resumed.sent == was.sent.push(CmdModel::Resume(name))
            &&& named.session_id == name && named.wiped
            &&& named.sent == was.sent.push(
                CmdModel::Run { session_id: name, content: Seq::empty() },
            )
            &&& begun.session_id == fresh && begun.wiped
            &&& begun.sent == was.sent.push(
                CmdModel::Run { session_id: fresh, content: Seq::empty() },
            )
            &&& forall|i: int| 0 <= i < was.blocks.len() ==> #[trigger] resumed.blocks[i] is None
            &&& resumed.blocks.last() matches Some(b) && b[0].0 == "Resuming: "@ + name
            &&& named.blocks.last() matches Some(b) && b[0].0 == "New session: "@ + name
        }),
        line_effect("/resume"@, fresh, was).session_id == was.session_id,
        line_effect("/resume"@, fresh, was).sent == was.sent,
{
    commands_are_known();
    a_command_takes_effect("/resume"@, name, fresh, was);
    a_command_takes_effect("/new"@, name, fresh, was);
}

/// Clearing takes all blocks away; the help names every command.
pub proof fn clearing_and_help_show(fresh: Seq<char>, was: LineEffect, i: int)
    requires
        0 <= i < was.blocks.len(),
    ensures
        line_effect("/clear"@, fresh, was).blocks.len() == was.blocks.len(),
        line_effect("/clear"@, fresh, was).blocks[i] is None,
        line_effect("/clear"@, fresh, was).wiped,
        line_effect("/help"@, fresh, was).blocks.len() == was.blocks.len() + 1,
        line_effect("/help"@, fresh, was).blocks.last() matches Some(b) && b.len()
            == command_table().len() + 1 && forall|k: int|
            0 <= k < command_table().len() ==> (#[trigger] b[k + 1]).0 == "  "@ + text::padded(
                command_table()[k].0,
                14,
            ) + " "@ + command_table()[k].1 + "\n"@,
{
    commands_are_known();
    a_command_takes_effect("/clear"@, "/new"@, fresh, was);
    a_command_takes_effect("/help"@, "/new"@, fresh, was);
}

/// Every command that the help names is known.
pub proof fn the_help_names_commands(k: int)
    requires
        0 <= k < command_table().len(),
    ensures
        known_commands().contains(command_table()[k].0),
        command_table().len() == 11,
{
    commands_are_known();
}

/// The first entry of a table that begins with an input is found, if there is one.
proof fn the_first_is_found(table: Seq<(Seq<char>, Seq<char>)>, input: Seq<char>)
    ensures
        match first_command(table, input) {
            Some(name) => exists|k: int|
                0 <= k < table.len() && (#[trigger] table[k]).0 == name && text::begins_with(
                    name,
                    input,
                ) && forall|j: int| 0 <= j < k ==> !text::begins_with((#[trigger] table[j]).0, input),
            None => forall|j: int|
                0 <= j < table.len() ==> !text::begins_with((#[trigger] table[j]).0, input),
        },
    decreases table.len(),
{
    if table.len() > 0 && !text::begins_with(table[0].0, input) {
        let rest = table.skip(1);
        the_first_is_found(rest, input);
        match first_command(rest, input) {
            Some(name) => {
                let k = choose|k: int|
                    0 <= k < rest.len() && (#[trigger] rest[k]).0 == name && text::begins_with(
                        name,
                        input,
                    ) && forall|j: int|
                        0 <= j < k ==> !text::begins_with((#[trigger] rest[j]).0, input);
                assert(table[k + 1] == rest[k]);
                assert forall|j: int| 0 <= j < k + 1 implies !text::begins_with(
                    (#[trigger] table[j]).0,
                    input,
                ) by {
                    if j > 0 {
                        assert(rest[j - 1] == table[j]);
                    }
                }
            },
            None => {
                assert forall|j: int| 0 <= j < table.len() implies !text::begins_with(
                    (#[trigger] table[j]).0,
                    input,
                ) by {
                    if j > 0 {
                        assert(rest[j - 1] == table[j]);
                    }
                }
            },
        }
    } else if table.len() > 0 {
        assert(table[0].0 == first_command(table, input)->0);
    }
}

/// The beginning of a command is completed to the first command of the help that begins so,
/// with a blank behind it; nothing else is completed.
pub proof fn commands_are_completed(input: Seq<char>)
    ensures
        match completion(input) {
            Some(s) => exists|k: int|
                0 <= k < command_table().len() && s == (#[trigger] command_table()[k]).0.push(' ')
                    && text::begins_with(command_table()[k].0, input) && forall|j: int|
                    0 <= j < k ==> !text::begins_with((#[trigger] command_table()[j]).0, input),
            None => input.len() == 0 || input[0] != '/' || forall|j: int|
                0 <= j < command_table().len() ==> !text::begins_with(
                    (#[trigger] command_table()[j]).0,
                    input,
                ),
        },
{
    the_first_is_found(command_table(), input);
}

/// Each command says what it does, and one that lacks what it needs says how it is used.
pub proof fn commands_say_what_they_do(fresh: Seq<char>, was: LineEffect)
    ensures
        ({
            let said = |line: Seq<char>| line_effect(line, fresh, was).blocks;
            let line = |s: Seq<char>, style: Style| was.blocks.push(Some(seq![(s, style)]));
            &&& said("/models"@) == line("Fetching models\u{2026}"@, s_system())
            &&& said("/sessions"@) == line("Fetching sessions\u{2026}"@, s_system())
            &&& said("/interrupt"@) == line("Interrupted."@, s_system())
            &&& said("/compact"@) == line("Compacting\u{2026}"@, s_system())
            &&& said("/model"@) == line("Usage: /model <model-name>"@, s_error())
            &&& said("/resume"@) == line("Usage: /resume <session-id>"@, s_error())
            &&& said("/help"@).last()->0[0].0 == "Available commands:\n"@
        }),
{
    commands_are_known();
    a_command_takes_effect("/models"@, "/new"@, fresh, was);
    a_command_takes_effect("/sessions"@, "/new"@, fresh, was);
    a_command_takes_effect("/interrupt"@, "/new"@, fresh, was);
    a_command_takes_effect("/compact"@, "/new"@, fresh, was);
    a_command_takes_effect("/model"@, "/new"@, fresh, was);
    a_command_takes_effect("/resume"@, "/new"@, fresh, was);
    a_command_takes_effect("/help"@, "/new"@, fresh, was);
}

/// The help tells what each command is for.
pub proof fn the_help_tells_what_commands_do()
    ensures
        command_table() == seq![
            ("/model"@, "Change model   (/model <name>)"@),
            ("/models"@, "List available models"@),
            ("/sessions"@, "List saved sessions"@),
            ("/resume"@, "Resume a session   (/resume <id>)"@),
            ("/new"@, "Create a new session   (/new [id])"@),
            ("/compact"@, "Compact session history"@),
            ("/interrupt"@, "Interrupt the agent"@),
            ("/clear"@, "Clear output"@),
            ("/status"@, "Check omega-loop connection"@),
            ("/help"@, "Show this help"@),
            ("/quit"@, "Exit omega-tui"@),
        ],
{
}

/// The status shows what was taken in, given out and read again, and the rate; before the
/// first answer it shows a dash.
pub proof fn the_cache_is_shown(c: CacheStats, f: CacheFigures)
    ensures
        c.request_count == 0 ==> c.status_line(f)[0].0 == " cache: \u{2014}"@,
        c.request_count > 0 ==> c.status_line(f)[0].0 == " cache: \u{2191}"@ + f.input@
            + " \u{2193}"@ + f.output@ + " R"@ + f.read@ + " CH"@ + f.rate@ + "%"@,
{
}

/// Figures below a thousand are shown as they are, others in thousands or millions, and with a
/// place behind the point where they would have but one before it.
pub proof fn figures_are_scaled(n: u64)
    ensures
        n < 1000 ==> CacheStats::scale_of(n) == (TokenScale {
            divisor: 1,
            decimals: 0,
            suffix: None,
        }),
        1000 <= n < 1_000_000 ==> CacheStats::scale_of(n) == (TokenScale {
            divisor: 1000,
            decimals: if n < 10_000 {
                1
            } else {
                0
            },
            suffix: Some('k'),
        }),
        n >= 1_000_000 ==> CacheStats::scale_of(n) == (TokenScale {
            divisor: 1_000_000,
            decimals: if n < 10_000_000 {
                1
            } else {
                0
            },
            suffix: Some('m'),
        }),
{
}

/// Markdown is set in the width of the screen, but in no less than forty columns.
pub proof fn narrow_screens_are_widened(width: usize)
    ensures
        width >= 40 ==> wrap_width(width) == width,
        width < 40 ==> wrap_width(width) == 40,
{
}

/// What an answer took is added to what was taken before, and the answer is counted.
pub proof fn figures_add_up(c: CacheStats, input: u32, output: u32, read: u32, created: u32)
    requires
        c.has_room(input, output, read, created),
    ensures
        ({
            let after = c.plus(input, output, read, created);
            &&& after.total_input_tokens == c.total_input_tokens + input
            &&& after.total_output_tokens == c.total_output_tokens + output
            &&& after.total_cache_read_tokens == c.total_cache_read_tokens + read
            &&& after.total_cache_creation_tokens == c.total_cache_creation_tokens + created
            &&& after.request_count == c.request_count + 1
        }),
        CacheStats::zero().request_count == 0,
        CacheStats::zero().total_input_tokens == 0,
        CacheStats::zero().total_output_tokens == 0,
{
}

/// A block that is written anew takes the place of the one there, and the others stay.
pub proof fn blocks_are_written_anew(
    blocks: Seq<Option<BlockModel>>,
    id: int,
    other: int,
    b: BlockModel,
)
    requires
        0 <= id < blocks.len(),
        0 <= other < blocks.len(),
        other != id,
    ensures
        rewritten(blocks, id, b).len() == blocks.len(),
        rewritten(blocks, id, b)[id] == Some(b),
        rewritten(blocks, id, b)[other] == blocks[other],
        rewritten(blocks, blocks.len() as int, b) == blocks,
{
}

} // verus!
