//! The tools of the shell daemon: what a request asks for, and what its
//! outcome is answered with.

use vstd::prelude::*;

use crate::json::{Json, JsonTree};
use crate::paths;
use crate::text;

verus! {

// ---------------------------------------------------------------------------
// Requests and responses
// ---------------------------------------------------------------------------

/// A request to the shell daemon.
pub struct OmegaRequest {
    pub id: String,
    pub tool: String,
    pub args: Json,
    pub session: Option<String>,
    pub dir: Option<String>,
}

/// An answer of the shell daemon.
pub struct OmegaResponse {
    pub id: String,
    pub result: OmegaToolResult,
}

/// What a tool returned.
pub struct OmegaToolResult {
    pub content: OmegaContent,
    pub is_error: bool,
}

/// What a tool returned: a text, or a file in base64.
pub enum OmegaContent {
    Text { data: String },
    Image { data: String, media_type: String },
    Document { data: String, media_type: String, description: String },
}

/// What a tool returned.
pub enum ContentModel {
    Text { data: Seq<char> },
    Image { data: Seq<char>, media_type: Seq<char> },
    Document { data: Seq<char>, media_type: Seq<char>, description: Seq<char> },
}

/// What a tool returned.
pub struct ResultModel {
    pub content: ContentModel,
    pub is_error: bool,
}

impl View for OmegaToolResult {
    type V = ResultModel;

    open spec fn view(&self) -> ResultModel {
        ResultModel {
            content: match self.content {
                OmegaContent::Text { data } => ContentModel::Text { data: data@ },
                OmegaContent::Image { data, media_type } => ContentModel::Image {
                    data: data@,
                    media_type: media_type@,
                },
                OmegaContent::Document { data, media_type, description } => ContentModel::Document {
                    data: data@,
                    media_type: media_type@,
                    description: description@,
                },
            },
            is_error: self.is_error,
        }
    }
}

/// A text as the result of a tool that did what it should.
pub open spec fn good(s: Seq<char>) -> ResultModel {
    ResultModel { content: ContentModel::Text { data: s }, is_error: false }
}

/// A text as the result of a tool that failed.
pub open spec fn bad(s: Seq<char>) -> ResultModel {
    ResultModel { content: ContentModel::Text { data: s }, is_error: true }
}

/// A text as the result of a tool that did what it should.
pub fn ok_text(t: String) -> (r: OmegaToolResult)
    ensures
        r@ == good(t@),
{
    OmegaToolResult { content: OmegaContent::Text { data: t }, is_error: false }
}

/// A text as the result of a tool that failed.
pub fn err(m: String) -> (r: OmegaToolResult)
    ensures
        r@ == bad(m@),
{
    OmegaToolResult { content: OmegaContent::Text { data: m }, is_error: true }
}

// ---------------------------------------------------------------------------
// Logging
// ---------------------------------------------------------------------------

/// The field of a request that says most.
pub open spec fn telling_param(tool: Seq<char>, args: JsonTree) -> Seq<char> {
    if tool == "Bash"@ {
        match args.text_field("command"@) {
            Some(c) => if text::byte_len(c) > 100 {
                text::first_chars(c, 100).push('\u{2026}')
            } else {
                text::first_chars(c, 100)
            },
            None => seq![],
        }
    } else if tool == "Read"@ || tool == "Write"@ || tool == "Edit"@ {
        args.text_or_empty("file_path"@)
    } else if tool == "Glob"@ || tool == "Grep"@ {
        args.text_or_empty("pattern"@)
    } else {
        seq![]
    }
}

/// The field of a request that says most, for the log.
pub fn log_param(tool: &str, args: &Json) -> (r: String)
    ensures
        r@ == telling_param(tool@, args@),
{
    if text::same(tool, "Bash") {
        match args.get_text("command") {
            Some(c) => {
                let mut s = text::take_chars(c.as_str(), 100);
                if text::len_in_bytes(c.as_str()) > 100 {
                    s.push('\u{2026}');
                }
                s
            },
            None => {
                let s = String::new();
                assert(s@ =~= seq![]);
                s
            },
        }
    } else if text::same(tool, "Read") || text::same(tool, "Write") || text::same(tool, "Edit") {
        args.text_or_empty("file_path")
    } else if text::same(tool, "Glob") || text::same(tool, "Grep") {
        args.text_or_empty("pattern")
    } else {
        let s = String::new();
        assert(s@ =~= seq![]);
        s
    }
}

// ---------------------------------------------------------------------------
// Commands
// ---------------------------------------------------------------------------

/// How long a command may run where nothing is said, in milliseconds.
pub const DEFAULT_TIMEOUT_MS: u64 = 120_000;

/// How long a command may run at most, in milliseconds.
pub const MAX_TIMEOUT_MS: u64 = 600_000;

/// How many bytes of output a command may give.
pub const MAX_OUTPUT_LENGTH: usize = 30_000;

/// How long a command may run.
pub open spec fn timeout_of(args: JsonTree) -> u64 {
    let ms = match args.whole_field("timeout"@) {
        Some(n) => n,
        None => DEFAULT_TIMEOUT_MS,
    };
    if ms < MAX_TIMEOUT_MS {
        ms
    } else {
        MAX_TIMEOUT_MS
    }
}

/// How long a command may run.
fn read_timeout(args: &Json) -> (r: u64)
    ensures
        r == timeout_of(args@),
{
    let ms: u64 = match args.get_whole("timeout") {
        Some(n) => n,
        None => DEFAULT_TIMEOUT_MS,
    };
    if ms < MAX_TIMEOUT_MS {
        ms
    } else {
        MAX_TIMEOUT_MS
    }
}

/// The output of a command: what it printed, and under a heading what it
/// printed as errors.
pub open spec fn combined(stdout: Seq<char>, stderr: Seq<char>) -> Seq<char> {
    let out = text::trimmed(stdout);
    let errs = text::trimmed(stderr);
    if errs.len() == 0 {
        out
    } else if out.len() == 0 {
        "STDERR:\n"@ + errs
    } else {
        out + "\n"@ + "STDERR:\n"@ + errs
    }
}

/// An output cut to its limit.
pub open spec fn limited(s: Seq<char>) -> Seq<char> {
    if text::byte_len(s) > MAX_OUTPUT_LENGTH {
        text::first_bytes(s, MAX_OUTPUT_LENGTH as int) + "\n... (output truncated)"@
    } else {
        s
    }
}

/// What a command that ran is answered with.
pub open spec fn command_result(exit_code: int, stdout: Seq<char>, stderr: Seq<char>) -> ResultModel {
    let s = limited(combined(stdout, stderr));
    if exit_code != 0 {
        bad("Command failed with exit code "@ + text::signed_decimal(exit_code) + "\n"@ + s)
    } else if s.len() == 0 {
        good("Command completed successfully (no output)"@)
    } else {
        good(s)
    }
}

/// The output of a command is kept whole up to its limit. A longer one keeps its
/// beginning, just as many bytes as the limit allows, and a note says so.
pub proof fn output_is_limited(s: Seq<char>)
    requires
        vstd::utf8::encode_utf8(s).len() <= usize::MAX,
        text::cuts_at(s, MAX_OUTPUT_LENGTH as int),
    ensures
        vstd::utf8::encode_utf8(s).len() <= MAX_OUTPUT_LENGTH ==> limited(s) == s,
        vstd::utf8::encode_utf8(s).len() > MAX_OUTPUT_LENGTH ==> exists|head: Seq<char>|
            limited(s) == #[trigger] (head + "\n... (output truncated)"@) && head.is_prefix_of(s)
                && vstd::utf8::encode_utf8(head).len() == MAX_OUTPUT_LENGTH,
{
    if vstd::utf8::encode_utf8(s).len() > MAX_OUTPUT_LENGTH {
        text::first_bytes_are_kept(s, MAX_OUTPUT_LENGTH as int);
        let head = text::first_bytes(s, MAX_OUTPUT_LENGTH as int);
        assert(limited(s) == head + "\n... (output truncated)"@);
    }
}

/// The output of a command.
fn combine(stdout: &str, stderr: &str) -> (r: String)
    ensures
        r@ == combined(stdout@, stderr@),
{
    let out = text::trim(stdout);
    let errs = text::trim(stderr);
    if errs.as_str().is_empty() {
        out
    } else if out.as_str().is_empty() {
        text::cat2("STDERR:\n", errs.as_str())
    } else {
        text::cat4(out.as_str(), "\n", "STDERR:\n", errs.as_str())
    }
}

/// What a command that ran is answered with, from its output as text. The
/// output must be such that it can be cut at its limit.
pub fn bash_result(exit_code: i32, stdout: &str, stderr: &str) -> (r: OmegaToolResult)
    requires
        text::cuts_at(combined(stdout@, stderr@), MAX_OUTPUT_LENGTH as int),
    ensures
        r@ == command_result(exit_code as int, stdout@, stderr@),
{
    let mut s = combine(stdout, stderr);
    if text::len_in_bytes(s.as_str()) > MAX_OUTPUT_LENGTH {
        let mut cut = text::take_bytes(s.as_str(), MAX_OUTPUT_LENGTH);
        cut.append("\n... (output truncated)");
        s = cut;
    }
    if exit_code == 0 {
        if s.as_str().is_empty() {
            ok_text("Command completed successfully (no output)".to_owned())
        } else {
            ok_text(s)
        }
    } else {
        err(
            text::cat4(
                "Command failed with exit code ",
                text::signed_number(exit_code).as_str(),
                "\n",
                s.as_str(),
            ),
        )
    }
}

/// Bytes read as text, with a mark in the place of what is no UTF-8.
pub uninterp spec fn lossy(bytes: Seq<u8>) -> Seq<char>;

/// `String::from_utf8_lossy` of std: a function of the bytes, which gives the
/// text that they encode where they are UTF-8.
#[verifier::external_body]
fn read_lossy(bytes: &Vec<u8>) -> (r: String)
    ensures
        r@ == lossy(bytes@),
        vstd::utf8::valid_utf8(bytes@) ==> r@ == vstd::utf8::decode_utf8(bytes@),
{
    String::from_utf8_lossy(bytes).into_owned()
}

/// How a command ended.
pub enum BashOutcome {
    /// The shell could not be started.
    NotStarted(String),
    /// The output could not be read.
    NotRead(String),
    /// The command ran too long.
    TimedOut,
    /// The command ran; without an exit code where a signal ended it.
    Ran { exit_code: Option<i32>, stdout: Vec<u8>, stderr: Vec<u8> },
}

/// The exit code that a command is answered with.
pub open spec fn exit_code_of(code: Option<i32>) -> int {
    match code {
        Some(n) => n as int,
        None => -1,
    }
}

/// Whether the answer to how a command ended can be given.
pub open spec fn answers_command(outcome: BashOutcome) -> bool {
    match outcome {
        BashOutcome::Ran { stdout, stderr, .. } => text::cuts_at(
            combined(lossy(stdout@), lossy(stderr@)),
            MAX_OUTPUT_LENGTH as int,
        ),
        _ => true,
    }
}

/// What a command is answered with, however it ended.
pub open spec fn bash_answer(outcome: BashOutcome, timeout_ms: u64) -> ResultModel {
    match outcome {
        BashOutcome::NotStarted(e) => bad("Failed to spawn shell: "@ + e@),
        BashOutcome::NotRead(e) => bad("Failed to read output: "@ + e@),
        BashOutcome::TimedOut => bad(
            "Command timed out after "@ + text::decimal(timeout_ms as nat) + "ms"@,
        ),
        BashOutcome::Ran { exit_code, stdout, stderr } => command_result(
            exit_code_of(exit_code),
            lossy(stdout@),
            lossy(stderr@),
        ),
    }
}

/// What a command is answered with, however it ended. There is no answer where
/// its output can not be cut at its limit.
pub fn bash(outcome: &BashOutcome, timeout_ms: u64) -> (r: Option<OmegaToolResult>)
    ensures
        match r {
            Some(x) => answers_command(*outcome) && x@ == bash_answer(*outcome, timeout_ms),
            None => !answers_command(*outcome),
        },
{
    match outcome {
        BashOutcome::NotStarted(e) => Some(
            err(text::cat2("Failed to spawn shell: ", e.as_str())),
        ),
        BashOutcome::NotRead(e) => Some(err(text::cat2("Failed to read output: ", e.as_str()))),
        BashOutcome::TimedOut => Some(
            err(
                text::cat3(
                    "Command timed out after ",
                    text::number(timeout_ms).as_str(),
                    "ms",
                ),
            ),
        ),
        BashOutcome::Ran { exit_code, stdout, stderr } => {
            let code: i32 = match exit_code {
                Some(n) => *n,
                None => -1,
            };
            let out = read_lossy(stdout);
            let errs = read_lossy(stderr);
            if text::can_cut(combine(out.as_str(), errs.as_str()).as_str(), MAX_OUTPUT_LENGTH) {
                Some(bash_result(code, out.as_str(), errs.as_str()))
            } else {
                None
            }
        },
    }
}

// ---------------------------------------------------------------------------
// Reading
// ---------------------------------------------------------------------------

/// How a file is read.
#[derive(Clone, Copy, Debug, PartialEq, Eq, Structural)]
pub enum FileKind {
    Image,
    Pdf,
    Text,
}

/// How a file with an extension in lower case is read.
pub open spec fn kind_for(ext: Option<Seq<char>>) -> FileKind {
    match ext {
        Some(e) => if e == "png"@ || e == "jpg"@ || e == "jpeg"@ || e == "gif"@ || e == "webp"@ {
            FileKind::Image
        } else if e == "pdf"@ {
            FileKind::Pdf
        } else {
            FileKind::Text
        },
        None => FileKind::Text,
    }
}

/// How a file with an extension in lower case is read.
pub fn read_kind(ext: Option<&str>) -> (r: FileKind)
    ensures
        r == kind_for(
            match ext {
                Some(e) => Some(e@),
                None => None,
            },
        ),
{
    match ext {
        Some(e) => {
            if text::same(e, "png") || text::same(e, "jpg") || text::same(e, "jpeg") || text::same(
                e,
                "gif",
            ) || text::same(e, "webp") {
                FileKind::Image
            } else if text::same(e, "pdf") {
                FileKind::Pdf
            } else {
                FileKind::Text
            }
        },
        None => FileKind::Text,
    }
}

/// How a file is read, by its extension in whatever case.
pub open spec fn kind_of_path(path: Seq<char>) -> FileKind {
    kind_for(
        match paths::extension_of(path) {
            Some(e) => Some(text::lowercase(e)),
            None => None,
        },
    )
}

/// How a file is read, by its extension.
pub fn file_kind(path: &str) -> (r: FileKind)
    ensures
        r == kind_of_path(path@),
{
    match paths::extension(path) {
        Some(e) => read_kind(Some(text::to_lower(e.as_str()).as_str())),
        None => read_kind(None),
    }
}

/// The media type of an image, by its extension as it is written.
pub open spec fn media_type_of(path: Seq<char>) -> Seq<char> {
    match paths::extension_of(path) {
        Some(e) => if e == "png"@ {
            "image/png"@
        } else if e == "jpg"@ || e == "jpeg"@ {
            "image/jpeg"@
        } else if e == "gif"@ {
            "image/gif"@
        } else if e == "webp"@ {
            "image/webp"@
        } else {
            "application/octet-stream"@
        },
        None => "application/octet-stream"@,
    }
}

/// The media type of an image.
fn media_type(path: &str) -> (r: String)
    ensures
        r@ == media_type_of(path@),
{
    let other = "application/octet-stream";
    match paths::extension(path) {
        Some(e) => {
            let e = e.as_str();
            if text::same(e, "png") {
                "image/png".to_owned()
            } else if text::same(e, "jpg") || text::same(e, "jpeg") {
                "image/jpeg".to_owned()
            } else if text::same(e, "gif") {
                "image/gif".to_owned()
            } else if text::same(e, "webp") {
                "image/webp".to_owned()
            } else {
                other.to_owned()
            }
        },
        None => other.to_owned(),
    }
}

/// Bytes in base64.
pub uninterp spec fn base64_of(bytes: Seq<u8>) -> Seq<char>;

/// `encode` of the standard engine of `base64`: a function of the bytes.
#[verifier::external_body]
fn to_base64(bytes: &Vec<u8>) -> (r: String)
    ensures
        r@ == base64_of(bytes@),
{
    base64::Engine::encode(&base64::engine::general_purpose::STANDARD, bytes)
}

/// How large an image may be, in bytes.
pub const MAX_IMAGE_BYTES: u64 = 5_242_880;

/// How large a document may be, in bytes.
pub const MAX_PDF_BYTES: u64 = 33_554_432;

/// Why a file of a size is not read, where it is too large.
pub fn size_error(size: u64, max: u64) -> (r: Option<String>)
    ensures
        match r {
            Some(s) => size > max && s@ == "File too large: "@ + text::decimal(size as nat)
                + " bytes (max: "@ + text::decimal(max as nat) + " bytes)"@,
            None => size <= max,
        },
{
    if size > max {
        Some(
            text::cat5(
                "File too large: ",
                text::number(size).as_str(),
                " bytes (max: ",
                text::number(max).as_str(),
                " bytes)",
            ),
        )
    } else {
        None
    }
}

/// What an image is answered with.
pub fn read_image(path: &str, data: &Vec<u8>) -> (r: OmegaToolResult)
    ensures
        r@ == (ResultModel {
            content: ContentModel::Image {
                data: base64_of(data@),
                media_type: media_type_of(path@),
            },
            is_error: false,
        }),
{
    OmegaToolResult {
        content: OmegaContent::Image { data: to_base64(data), media_type: media_type(path) },
        is_error: false,
    }
}

/// What a document is answered with.
pub fn read_pdf(path: &str, data: &Vec<u8>) -> (r: OmegaToolResult)
    ensures
        r@ == (ResultModel {
            content: ContentModel::Document {
                data: base64_of(data@),
                media_type: "application/pdf"@,
                description: "PDF: "@ + path@,
            },
            is_error: false,
        }),
{
    OmegaToolResult {
        content: OmegaContent::Document {
            data: to_base64(data),
            media_type: "application/pdf".to_owned(),
            description: text::cat2("PDF: ", path),
        },
        is_error: false,
    }
}

/// The first line that is read, counted from zero.
pub open spec fn start_line(offset: Option<usize>) -> int {
    match offset {
        Some(n) => if n == 0 {
            0
        } else {
            n - 1
        },
        None => 0,
    }
}

/// The line behind the last one that is read.
pub open spec fn end_line(offset: Option<usize>, limit: Option<usize>, total: int) -> int {
    let end = start_line(offset) + match limit {
        Some(n) => n as int,
        None => 2000,
    };
    if end < total {
        end
    } else {
        total
    }
}

/// A line as it is shown, cut after two thousand bytes.
pub open spec fn shown_line(line: Seq<char>) -> Seq<char> {
    if text::byte_len(line) > 2000 {
        text::first_bytes(line, 2000) + "..."@
    } else {
        line
    }
}

/// The lines from one on and before another, each with its number.
pub open spec fn numbered(lines: Seq<Seq<char>>, from: int, to: int) -> Seq<char>
    decreases to - from,
{
    if to <= from {
        seq![]
    } else {
        numbered(lines, from, to - 1) + text::right_aligned(text::decimal(to as nat), 6) + "\t"@
            + shown_line(lines[to - 1]) + "\n"@
    }
}

/// What a text is answered with.
pub open spec fn text_answer(
    path: Seq<char>,
    content: Seq<char>,
    offset: Option<usize>,
    limit: Option<usize>,
) -> ResultModel {
    let lines = text::lines_of(content);
    let total = lines.len() as int;
    let start = start_line(offset);
    let end = end_line(offset, limit, total);
    if start >= total {
        good(
            "File has "@ + text::decimal(total as nat) + " lines. Requested offset "@
                + text::decimal((start + 1) as nat) + " is out of range."@,
        )
    } else {
        good(
            "File: "@ + path + "\n\n"@ + numbered(lines, start, end) + (if end < total {
                "\n... ("@ + text::decimal((total - end) as nat)
                    + " more lines, use offset and limit to read more)\n"@
            } else {
                seq![]
            }),
        )
    }
}

/// Whether the lines of a text that are read can be cut.
pub open spec fn lines_cut(content: Seq<char>, offset: Option<usize>, limit: Option<usize>) -> bool {
    let lines = text::lines_of(content);
    forall|i: int|
        start_line(offset) <= i < end_line(offset, limit, lines.len() as int) ==> text::cuts_at(
            #[trigger] lines[i],
            2000,
        )
}

/// The lines that are read: the first, and the one behind the last.
fn line_range(offset: Option<usize>, limit: Option<usize>, total: usize) -> (r: (usize, usize))
    ensures
        r.0 == start_line(offset),
        r.1 == end_line(offset, limit, total as int),
        r.1 <= total,
{
    let start: usize = match offset {
        Some(n) => if n == 0 { 0 } else { n - 1 },
        None => 0,
    };
    let count: usize = match limit {
        Some(n) => n,
        None => 2000,
    };
    let end: usize = if start < total && count < total - start { start + count } else { total };
    proof {
        if start >= total {
            assert(end_line(offset, limit, total as int) == total);
        }
    }
    (start, end)
}

/// Whether the lines of a text that are read can be cut.
pub fn can_read_text(content: &str, offset: Option<usize>, limit: Option<usize>) -> (r: bool)
    ensures
        r == lines_cut(content@, offset, limit),
{
    let lines = text::lines(content);
    let (start, end) = line_range(offset, limit, lines.len());
    let ghost all = text::lines_of(content@);
    let mut i: usize = start;
    while i < end
        invariant
            start <= i,
            end <= lines.len(),
            start == start_line(offset),
            end == end_line(offset, limit, all.len() as int),
            text::views(lines@) == all,
            all == text::lines_of(content@),
            forall|j: int| start <= j < i ==> text::cuts_at(#[trigger] all[j], 2000),
        decreases end - i,
    {
        assert(all[i as int] == lines@[i as int]@);
        if !text::can_cut(lines[i].as_str(), 2000) {
            return false;
        }
        i += 1;
    }
    true
}

/// What a text is answered with: its lines, each with its number. The lines
/// must be such that the long ones can be cut.
pub fn read_text(
    path: &str,
    content: &str,
    offset: Option<usize>,
    limit: Option<usize>,
) -> (r: OmegaToolResult)
    requires
        lines_cut(content@, offset, limit),
    ensures
        r@ == text_answer(path@, content@, offset, limit),
{
    let lines = text::lines(content);
    let total: usize = lines.len();
    let (start, end) = line_range(offset, limit, total);
    if start >= total {
        return ok_text(
            text::cat5(
                "File has ",
                text::number(total as u64).as_str(),
                " lines. Requested offset ",
                text::number(start as u64 + 1).as_str(),
                " is out of range.",
            ),
        );
    }
    let ghost all = text::lines_of(content@);
    let mut out = text::cat3("File: ", path, "\n\n");
    let ghost head = out@;
    let mut i: usize = start;
    assert(head + numbered(all, start as int, start as int) =~= head);
    while i < end
        invariant
            start <= i <= end <= lines.len(),
            start == start_line(offset),
            end == end_line(offset, limit, all.len() as int),
            lines_cut(content@, offset, limit),
            text::views(lines@) == all,
            all == text::lines_of(content@),
            out@ == head + numbered(all, start as int, i as int),
        decreases end - i,
    {
        let ghost was = out@;
        assert(all[i as int] == lines@[i as int]@);
        let line = lines[i].as_str();
        let display = if text::len_in_bytes(line) > 2000 {
            text::cat2(text::take_bytes(line, 2000).as_str(), "...")
        } else {
            line.to_owned()
        };
        let number = text::pad_left(text::number(i as u64 + 1).as_str(), 6);
        out.append(number.as_str());
        out.append("\t");
        out.append(display.as_str());
        out.append("\n");
        i += 1;
        assert(out@ =~= head + numbered(all, start as int, i as int));
    }
    if end < total {
        out.append("\n... (");
        out.append(text::number((total - end) as u64).as_str());
        out.append(" more lines, use offset and limit to read more)\n");
    }
    assert(out@ =~= text_answer(path@, content@, offset, limit).content->Text_data);
    ok_text(out)
}

// ---------------------------------------------------------------------------
// Writing and editing
// ---------------------------------------------------------------------------

/// What a written file is answered with: whether it was there before, or why
/// it was not written.
pub fn write_result(file_path: &str, existed: bool, written: Result<(), String>) -> (r:
    OmegaToolResult)
    ensures
        r@ == match written {
            Ok(_) => if existed {
                good("File updated successfully: "@ + file_path@)
            } else {
                good("File created successfully: "@ + file_path@)
            },
            Err(e) => bad("Failed to write file: "@ + e@),
        },
{
    match written {
        Ok(_) => {
            if existed {
                ok_text(text::cat2("File updated successfully: ", file_path))
            } else {
                ok_text(text::cat2("File created successfully: ", file_path))
            }
        },
        Err(e) => err(text::cat2("Failed to write file: ", e.as_str())),
    }
}

/// A replacement in a file.
pub struct EditPlan {
    pub file_path: String,
    pub old_string: String,
    pub new_string: String,
    pub replace_all: bool,
}

/// Why a replacement is refused, for what its request says.
pub open spec fn edit_refusal(args: JsonTree) -> Option<Seq<char>> {
    if args.text_or_empty("file_path"@).len() == 0 || args.text_or_empty("old_string"@).len()
        == 0 {
        Some("Missing required fields: file_path, old_string"@)
    } else if args.text_or_empty("old_string"@) == args.text_or_empty("new_string"@) {
        Some("old_string and new_string must be different"@)
    } else {
        None
    }
}

/// Whether a plan is the replacement that a request asks for.
pub open spec fn is_edit_plan(plan: EditPlan, args: JsonTree) -> bool {
    &&& plan.file_path@ == args.text_or_empty("file_path"@)
    &&& plan.old_string@ == args.text_or_empty("old_string"@)
    &&& plan.new_string@ == args.text_or_empty("new_string"@)
    &&& plan.replace_all == args.flag("replace_all"@)
}

/// The replacement that a request asks for, or why it is refused.
pub fn edit_plan(args: &Json) -> (r: Result<EditPlan, OmegaToolResult>)
    ensures
        match r {
            Ok(plan) => edit_refusal(args@) is None && is_edit_plan(plan, args@),
            Err(x) => edit_refusal(args@) matches Some(s) && x@ == bad(s),
        },
{
    let file_path = args.text_or_empty("file_path");
    let old_string = args.text_or_empty("old_string");
    let new_string = args.text_or_empty("new_string");
    let replace_all = args.flag("replace_all");
    if file_path.as_str().is_empty() || old_string.as_str().is_empty() {
        return Err(err("Missing required fields: file_path, old_string".to_owned()));
    }
    if text::same(old_string.as_str(), new_string.as_str()) {
        return Err(err("old_string and new_string must be different".to_owned()));
    }
    Ok(EditPlan { file_path, old_string, new_string, replace_all })
}

/// Why a replacement is refused, for what the file holds.
pub open spec fn content_refusal(content: Seq<char>, old_string: Seq<char>, all: bool) -> Option<
    Seq<char>,
> {
    let n = text::occurrences(content, old_string);
    if n == 0 {
        Some("String not found in file. Make sure to include exact text including whitespace."@)
    } else if !all && n > 1 {
        Some(
            "Found "@ + text::decimal(n)
                + " occurrences of the string. Either provide a more specific string to ensure only one match, or use replace_all: true to change every instance."@,
        )
    } else {
        None
    }
}

/// What a file holds after a replacement.
pub open spec fn edited(content: Seq<char>, old_string: Seq<char>, new_string: Seq<char>, all: bool) -> Seq<
    char,
> {
    text::replaced(
        content,
        old_string,
        new_string,
        if all {
            text::occurrences(content, old_string)
        } else {
            1
        },
    )
}

/// Does a replacement in what a file holds, or says why it is refused.
pub fn edit(content: &str, plan: &EditPlan) -> (r: Result<String, OmegaToolResult>)
    ensures
        match r {
            Ok(s) => content_refusal(content@, plan.old_string@, plan.replace_all) is None && s@
                == edited(content@, plan.old_string@, plan.new_string@, plan.replace_all),
            Err(x) => content_refusal(content@, plan.old_string@, plan.replace_all) matches Some(s)
                && x@ == bad(s),
        },
{
    let n: usize = text::count_matches(content, plan.old_string.as_str());
    if n == 0 {
        return Err(
            err(
                "String not found in file. Make sure to include exact text including whitespace.".to_owned(),
            ),
        );
    }
    if !plan.replace_all && n > 1 {
        return Err(
            err(
                text::cat3(
                    "Found ",
                    text::number(n as u64).as_str(),
                    " occurrences of the string. Either provide a more specific string to ensure only one match, or use replace_all: true to change every instance.",
                ),
            ),
        );
    }
    let limit: usize = if plan.replace_all { n } else { 1 };
    Ok(text::replace(content, plan.old_string.as_str(), plan.new_string.as_str(), limit))
}

/// What a replacement is answered with, once the file was written or not.
/// `content` is what the file held before.
pub fn edit_result(content: &str, plan: &EditPlan, written: Result<(), String>) -> (r:
    OmegaToolResult)
    ensures
        r@ == match written {
            Ok(_) => if plan.replace_all {
                good(
                    "Successfully replaced "@ + text::decimal(
                        text::occurrences(content@, plan.old_string@),
                    ) + " occurrences in "@ + plan.file_path@,
                )
            } else {
                good("Successfully replaced text in "@ + plan.file_path@)
            },
            Err(e) => bad("Failed to write file: "@ + e@),
        },
{
    match written {
        Ok(_) => {
            if plan.replace_all {
                let n: usize = text::count_matches(content, plan.old_string.as_str());
                ok_text(
                    text::cat4(
                        "Successfully replaced ",
                        text::number(n as u64).as_str(),
                        " occurrences in ",
                        plan.file_path.as_str(),
                    ),
                )
            } else {
                ok_text(text::cat2("Successfully replaced text in ", plan.file_path.as_str()))
            }
        },
        Err(e) => err(text::cat2("Failed to write file: ", e.as_str())),
    }
}

/// A replacement that is allowed without `replace_all` changes the one place
/// where the old text stands, and nothing before or behind it.
pub proof fn a_single_edit_changes_one_place(
    content: Seq<char>,
    old_string: Seq<char>,
    new_string: Seq<char>,
)
    requires
        old_string.len() > 0,
        content_refusal(content, old_string, false) is None,
    ensures
        ({
            let k = text::first_at(content, old_string);
            &&& text::occurs_at(content, old_string, k)
            &&& edited(content, old_string, new_string, false) == content.take(k) + new_string
                + content.skip(k + old_string.len())
            &&& edited(content, old_string, new_string, true) == edited(
                content,
                old_string,
                new_string,
                false,
            )
        }),
{
    text::first_at_bounds(content, old_string);
    reveal_with_fuel(text::replaced, 2);
}

// ---------------------------------------------------------------------------
// Finding files
// ---------------------------------------------------------------------------

/// The pattern that files are looked for with: as it is where it begins at the
/// root, and else under a directory.
pub open spec fn full_pattern_of(pattern: Seq<char>, base: Seq<char>) -> Seq<char> {
    if pattern.len() > 0 && pattern[0] == '/' {
        pattern
    } else {
        base + "/"@ + pattern
    }
}

/// The pattern that files are looked for with.
pub fn full_pattern(pattern: &str, base: &str) -> (r: String)
    ensures
        r@ == full_pattern_of(pattern@, base@),
{
    if paths::is_absolute(pattern) {
        pattern.to_owned()
    } else {
        text::cat3(base, "/", pattern)
    }
}

/// A file that was found, and when it was last changed.
pub struct FoundFile {
    pub path: String,
    pub modified: i128,
}

/// A file that was found, and when it was last changed.
pub type FileModel = (Seq<char>, i128);

/// The files of a list.
pub open spec fn file_views(v: Seq<FoundFile>) -> Seq<FileModel> {
    Seq::new(v.len(), |i: int| (v[i].path@, v[i].modified))
}

/// Files in order, newest first, with one put in behind those that are not
/// older.
pub open spec fn file_inserted(v: Seq<FileModel>, f: FileModel) -> Seq<FileModel>
    decreases v.len(),
{
    if v.len() == 0 {
        seq![f]
    } else if v.last().1 < f.1 {
        file_inserted(v.drop_last(), f).push(v.last())
    } else {
        v.push(f)
    }
}

/// Files in order, newest first; of the same age, those stay first that were.
pub open spec fn newest_first(v: Seq<FileModel>) -> Seq<FileModel>
    decreases v.len(),
{
    if v.len() == 0 {
        seq![]
    } else {
        file_inserted(newest_first(v.drop_last()), v.last())
    }
}

/// Puts a file in behind those that are not older.
fn insert_file(v: &mut Vec<FoundFile>, f: FoundFile)
    ensures
        file_views(final(v)@) == file_inserted(
            file_views(old(v)@),
            (f.path@, f.modified),
        ),
{
    let mut i: usize = v.len();
    let ghost all = file_views(v@);
    let ghost x = (f.path@, f.modified);
    assert(all.take(i as int) =~= all);
    assert(all.skip(i as int) =~= seq![]);
    assert(file_inserted(all, x) =~= file_inserted(all.take(i as int), x) + all.skip(i as int));
    while i > 0 && v[i - 1].modified < f.modified
        invariant
            i <= v.len(),
            all == file_views(v@),
            x == (f.path@, f.modified),
            file_inserted(all, x) == file_inserted(all.take(i as int), x) + all.skip(i as int),
        decreases i,
    {
        let ghost head = all.take(i as int);
        assert(head.last() == (v@[i - 1].path@, v@[i - 1].modified));
        assert(head.drop_last() =~= all.take(i - 1));
        assert(seq![head.last()] + all.skip(i as int) =~= all.skip(i - 1));
        assert(file_inserted(head, x) + all.skip(i as int) =~= file_inserted(all.take(i - 1), x)
            + all.skip(i - 1));
        i -= 1;
    }
    proof {
        let head = all.take(i as int);
        if i > 0 {
            assert(head.last() == (v@[i - 1].path@, v@[i - 1].modified));
        }
        assert(file_inserted(head, x) =~= head.push(x));
    }
    v.insert(i, f);
    assert(file_views(v@) =~= all.take(i as int).push(x) + all.skip(i as int));
}

/// Puts files in order, newest first.
pub fn sort_newest_first(files: Vec<FoundFile>) -> (r: Vec<FoundFile>)
    ensures
        file_views(r@) == newest_first(file_views(files@)),
{
    let mut r: Vec<FoundFile> = Vec::new();
    let ghost all = file_views(files@);
    assert(file_views(r@) =~= newest_first(all.take(0)));
    for f in it: files
        invariant
            it.seq() == files@,
            all == file_views(files@),
            file_views(r@) == newest_first(all.take(it.index() as int)),
    {
        proof {
            let next = all.take(it.index() + 1);
            assert(next.drop_last() =~= all.take(it.index() as int));
            assert(next.last() == (f.path@, f.modified));
        }
        insert_file(&mut r, f);
    }
    assert(all.take(all.len() as int) =~= all);
    r
}

/// Putting a file in keeps the order, and adds that file and no other.
proof fn inserting_keeps_order(v: Seq<FileModel>, f: FileModel)
    requires
        forall|i: int, j: int| 0 <= i <= j < v.len() ==> v[i].1 >= v[j].1,
    ensures
        forall|i: int, j: int|
            0 <= i <= j < file_inserted(v, f).len() ==> file_inserted(v, f)[i].1 >= file_inserted(
                v,
                f,
            )[j].1,
        file_inserted(v, f).to_multiset() == v.to_multiset().insert(f),
        forall|x: FileModel|
            file_inserted(v, f).contains(x) ==> x == f || #[trigger] v.contains(x),
    decreases v.len(),
{
    broadcast use vstd::seq_lib::group_to_multiset_ensures;

    if v.len() > 0 && v.last().1 < f.1 {
        let rest = v.drop_last();
        inserting_keeps_order(rest, f);
        let r = file_inserted(rest, f);
        assert(v =~= rest.push(v.last()));
        assert(file_inserted(v, f) =~= r.push(v.last()));
        assert forall|i: int| 0 <= i < r.len() implies #[trigger] r[i].1 >= v.last().1 by {
            assert(r.contains(r[i]));
            if r[i] != f {
                assert(rest.contains(r[i]));
                let k = choose|k: int| 0 <= k < rest.len() && rest[k] == r[i];
                assert(v[k] == r[i]);
            }
        }
        assert forall|x: FileModel| file_inserted(v, f).contains(x) implies x == f
            || #[trigger] v.contains(x) by {
            let k = choose|k: int|
                0 <= k < file_inserted(v, f).len() && file_inserted(v, f)[k] == x;
            if k < r.len() {
                assert(r.contains(x));
                if x != f {
                    assert(rest.contains(x));
                    let q = choose|q: int| 0 <= q < rest.len() && rest[q] == x;
                    assert(v[q] == x);
                }
            } else {
                assert(v[v.len() - 1] == x);
            }
        }
    } else {
        assert(file_inserted(v, f) =~= v.push(f));
        assert forall|x: FileModel| file_inserted(v, f).contains(x) implies x == f
            || #[trigger] v.contains(x) by {
            let k = choose|k: int| 0 <= k < v.push(f).len() && v.push(f)[k] == x;
            if k < v.len() {
                assert(v[k] == x);
            }
        }
    }
}

/// Putting files in order loses none and adds none, and no file stands before a
/// newer one.
pub proof fn newest_first_is_ordered(v: Seq<FileModel>)
    ensures
        newest_first(v).to_multiset() == v.to_multiset(),
        forall|i: int, j: int|
            0 <= i <= j < newest_first(v).len() ==> newest_first(v)[i].1 >= newest_first(v)[j].1,
    decreases v.len(),
{
    broadcast use vstd::seq_lib::group_to_multiset_ensures;

    if v.len() > 0 {
        newest_first_is_ordered(v.drop_last());
        inserting_keeps_order(newest_first(v.drop_last()), v.last());
        assert(v =~= v.drop_last().push(v.last()));
    } else {
        assert(v =~= seq![]);
    }
}

/// The first files of a list, one on each line.
pub open spec fn listed(files: Seq<FileModel>, n: int) -> Seq<char>
    decreases n,
{
    if n <= 0 {
        seq![]
    } else {
        listed(files, n - 1) + files[n - 1].0 + "\n"@
    }
}

/// What a search for files is answered with: at most a hundred files, newest
/// first.
pub open spec fn glob_answer(pattern: Seq<char>, files: Seq<FileModel>) -> ResultModel {
    let sorted = newest_first(files);
    if files.len() == 0 {
        good("No files found matching pattern: "@ + pattern)
    } else {
        good(
            "Found "@ + text::decimal(files.len()) + " files matching '"@ + pattern + "':\n"@
                + listed(
                sorted,
                if files.len() < 100 {
                    files.len() as int
                } else {
                    100
                },
            ) + (if files.len() > 100 {
                "... and "@ + text::decimal((files.len() - 100) as nat) + " more\n"@
            } else {
                seq![]
            }),
        )
    }
}

/// Sorting keeps the number of files.
proof fn newest_first_len(v: Seq<FileModel>)
    ensures
        newest_first(v).len() == v.len(),
    decreases v.len(),
{
    if v.len() > 0 {
        newest_first_len(v.drop_last());
        file_inserted_len(newest_first(v.drop_last()), v.last());
    }
}

/// Putting a file in adds one.
proof fn file_inserted_len(v: Seq<FileModel>, f: FileModel)
    ensures
        file_inserted(v, f).len() == v.len() + 1,
    decreases v.len(),
{
    if v.len() > 0 && v.last().1 < f.1 {
        file_inserted_len(v.drop_last(), f);
    }
}

/// What a search for files is answered with: the files that were found, or why
/// the pattern is none.
pub fn glob(pattern: &str, found: Result<Vec<FoundFile>, String>) -> (r: OmegaToolResult)
    ensures
        r@ == match found {
            Ok(files) => glob_answer(pattern@, file_views(files@)),
            Err(e) => bad("Invalid glob pattern: "@ + e@),
        },
{
    let files = match found {
        Ok(files) => files,
        Err(e) => {
            return err(text::cat2("Invalid glob pattern: ", e.as_str()));
        },
    };
    let ghost all = file_views(files@);
    let total: usize = files.len();
    if total == 0 {
        return ok_text(text::cat2("No files found matching pattern: ", pattern));
    }
    let sorted = sort_newest_first(files);
    proof {
        newest_first_len(all);
        assert(sorted@.len() == file_views(sorted@).len());
    }
    let mut out = text::cat5(
        "Found ",
        text::number(total as u64).as_str(),
        " files matching '",
        pattern,
        "':\n",
    );
    let ghost head = out@;
    let n: usize = if total < 100 { total } else { 100 };
    let mut i: usize = 0;
    assert(head + listed(newest_first(all), 0) =~= head);
    while i < n
        invariant
            i <= n <= sorted.len(),
            file_views(sorted@) == newest_first(all),
            out@ == head + listed(newest_first(all), i as int),
        decreases n - i,
    {
        out.append(sorted[i].path.as_str());
        out.append("\n");
        i += 1;
        assert(newest_first(all)[i - 1].0 == sorted@[i - 1].path@);
        assert(out@ =~= head + listed(newest_first(all), i as int));
    }
    if total > 100 {
        out.append("... and ");
        out.append(text::number((total - 100) as u64).as_str());
        out.append(" more\n");
    }
    assert(out@ =~= glob_answer(pattern@, all).content->Text_data);
    ok_text(out)
}

// ---------------------------------------------------------------------------
// Searching files
// ---------------------------------------------------------------------------

/// An option with a number, where there is one.
pub open spec fn number_option(name: Seq<char>, n: Option<u64>) -> Seq<Seq<char>> {
    match n {
        Some(n) => seq![name, text::decimal(n as nat)],
        None => seq![],
    }
}

/// An option with a text, where there is one.
pub open spec fn text_option(name: Seq<char>, s: Option<Seq<char>>) -> Seq<Seq<char>> {
    match s {
        Some(s) => seq![name, s],
        None => seq![],
    }
}

/// The options that say what is shown.
pub open spec fn mode_options(args: JsonTree) -> Seq<Seq<char>> {
    let mode = match args.text_field("output_mode"@) {
        Some(s) => s,
        None => "files_with_matches"@,
    };
    if mode == "content"@ {
        (if args.flag_or("-n"@, true) {
            seq!["-n"@]
        } else {
            seq![]
        }) + number_option("-B"@, args.whole_field("-B"@)) + number_option(
            "-A"@,
            args.whole_field("-A"@),
        ) + number_option("-C"@, args.whole_field("-C"@))
    } else if mode == "count"@ {
        seq!["-c"@]
    } else {
        seq!["-l"@]
    }
}

/// What the search program is called with.
pub open spec fn search_args(args: JsonTree, pattern: Seq<char>, path: Seq<char>) -> Seq<
    Seq<char>,
> {
    seq![pattern, path] + mode_options(args) + (if args.flag("-i"@) {
        seq!["-i"@]
    } else {
        seq![]
    }) + text_option("--type"@, args.text_field("type"@)) + text_option(
        "--glob"@,
        args.text_field("glob"@),
    ) + (if args.flag("multiline"@) {
        seq!["-U"@, "--multiline-dotall"@]
    } else {
        seq![]
    }) + seq!["--color=never"@]
}

/// Puts a text at the end of a list.
fn push_arg(v: &mut Vec<String>, s: &str)
    ensures
        text::views(final(v)@) == text::views(old(v)@).push(s@),
{
    v.push(s.to_owned());
    assert(text::views(v@) =~= text::views(old(v)@).push(s@));
}

/// Puts an option with a number at the end of a list, where there is one.
fn push_number(v: &mut Vec<String>, name: &str, n: Option<u64>)
    ensures
        text::views(final(v)@) == text::views(old(v)@) + number_option(name@, n),
{
    let ghost was = text::views(v@);
    if let Some(n) = n {
        push_arg(v, name);
        push_arg(v, text::number(n).as_str());
    }
    assert(text::views(v@) =~= was + number_option(name@, n));
}

/// Puts an option with a text at the end of a list, where there is one.
fn push_text(v: &mut Vec<String>, name: &str, s: Option<String>)
    ensures
        text::views(final(v)@) == text::views(old(v)@) + text_option(
            name@,
            match s {
                Some(x) => Some(x@),
                None => None,
            },
        ),
{
    let ghost was = text::views(v@);
    if let Some(x) = &s {
        push_arg(v, name);
        push_arg(v, x.as_str());
    }
    assert(text::views(v@) =~= was + text_option(
        name@,
        match s {
            Some(x) => Some(x@),
            None => None,
        },
    ));
}

/// Puts the options that say what is shown at the end of a list.
fn push_mode(v: &mut Vec<String>, args: &Json)
    ensures
        text::views(final(v)@) == text::views(old(v)@) + mode_options(args@),
{
    let ghost was = text::views(v@);
    let mode = match args.get_text("output_mode") {
        Some(s) => s,
        None => "files_with_matches".to_owned(),
    };
    if text::same(mode.as_str(), "content") {
        if args.flag_or("-n", true) {
            push_arg(v, "-n");
        }
        push_number(v, "-B", args.get_whole("-B"));
        push_number(v, "-A", args.get_whole("-A"));
        push_number(v, "-C", args.get_whole("-C"));
    } else if text::same(mode.as_str(), "count") {
        push_arg(v, "-c");
    } else {
        push_arg(v, "-l");
    }
    assert(text::views(v@) =~= was + mode_options(args@));
}

/// What the search program is called with.
pub fn grep_args(args: &Json, pattern: &str, path: &str) -> (r: Vec<String>)
    ensures
        text::views(r@) == search_args(args@, pattern@, path@),
{
    let mut v: Vec<String> = Vec::new();
    push_arg(&mut v, pattern);
    push_arg(&mut v, path);
    push_mode(&mut v, args);
    if args.flag("-i") {
        push_arg(&mut v, "-i");
    }
    push_text(&mut v, "--type", args.get_text("type"));
    push_text(&mut v, "--glob", args.get_text("glob"));
    if args.flag("multiline") {
        push_arg(&mut v, "-U");
        push_arg(&mut v, "--multiline-dotall");
    }
    push_arg(&mut v, "--color=never");
    assert(text::views(v@) =~= search_args(args@, pattern@, path@));
    v
}

/// The lines of an output behind the first ones, and no more than some of them.
pub open spec fn lines_window(lines: Seq<Seq<char>>, offset: Option<usize>, limit: Option<usize>) -> Seq<
    Seq<char>,
> {
    let rest = match offset {
        Some(n) => if n < lines.len() {
            lines.skip(n as int)
        } else {
            seq![]
        },
        None => lines,
    };
    match limit {
        Some(n) => if n < rest.len() {
            rest.take(n as int)
        } else {
            rest
        },
        None => rest,
    }
}

/// What a search is answered with, from its output as text.
pub open spec fn search_result(
    pattern: Seq<char>,
    path: Seq<char>,
    success: bool,
    code: Option<i32>,
    stdout: Seq<char>,
    stderr: Seq<char>,
    offset: Option<usize>,
    limit: Option<usize>,
) -> ResultModel {
    if !success && stdout.len() == 0 {
        if text::contains(stderr, "No such file or directory"@) {
            good("Path not found: "@ + path)
        } else if code == Some(1i32) {
            good("No matches found for pattern: "@ + pattern)
        } else {
            good("Search error: "@ + stderr)
        }
    } else {
        good(text::joined(lines_window(text::lines_of(stdout), offset, limit), "\n"@))
    }
}

/// What a search looks for, where, and which lines of its output are wanted.
pub struct GrepPlan {
    pub pattern: String,
    pub path: String,
    pub args: Vec<String>,
    pub offset: Option<usize>,
    pub head_limit: Option<usize>,
}

/// What a search is answered with, from its output as text.
pub fn grep_text(plan: &GrepPlan, success: bool, code: Option<i32>, stdout: &str, stderr: &str) -> (r:
    OmegaToolResult)
    ensures
        r@ == search_result(
            plan.pattern@,
            plan.path@,
            success,
            code,
            stdout@,
            stderr@,
            plan.offset,
            plan.head_limit,
        ),
{
    if !success && stdout.is_empty() {
        if text::holds(stderr, "No such file or directory") {
            return ok_text(text::cat2("Path not found: ", plan.path.as_str()));
        }
        let none = match code {
            Some(n) => n == 1,
            None => false,
        };
        if none {
            return ok_text(text::cat2("No matches found for pattern: ", plan.pattern.as_str()));
        }
        return ok_text(text::cat2("Search error: ", stderr));
    }
    let lines = text::lines(stdout);
    let ghost all = text::lines_of(stdout@);
    let from: usize = match plan.offset {
        Some(n) => if n < lines.len() { n } else { lines.len() },
        None => 0,
    };
    let room: usize = lines.len() - from;
    let count: usize = match plan.head_limit {
        Some(n) => if n < room { n } else { room },
        None => room,
    };
    let mut shown: Vec<String> = Vec::new();
    let mut i: usize = from;
    assert(text::views(shown@) =~= all.subrange(from as int, from as int));
    while i < from + count
        invariant
            from <= i <= from + count <= lines.len(),
            text::views(lines@) == all,
            text::views(shown@) == all.subrange(from as int, i as int),
        decreases from + count - i,
    {
        push_arg(&mut shown, lines[i].as_str());
        i += 1;
        assert(all[i - 1] == lines@[i - 1]@);
        assert(all.subrange(from as int, i as int) =~= all.subrange(from as int, i - 1).push(
            all[i - 1],
        ));
    }
    assert(text::views(shown@) =~= lines_window(all, plan.offset, plan.head_limit));
    ok_text(text::join(&shown, "\n"))
}

/// How a search ended.
pub enum GrepOutcome {
    /// The search program could not be run.
    NotRun(String),
    /// The search program ran.
    Ran { success: bool, code: Option<i32>, stdout: Vec<u8>, stderr: Vec<u8> },
}

/// What a search is answered with, however it ended.
pub fn grep(plan: &GrepPlan, outcome: &GrepOutcome) -> (r: OmegaToolResult)
    ensures
        r@ == match *outcome {
            GrepOutcome::NotRun(e) => bad("Failed to run ripgrep: "@ + e@),
            GrepOutcome::Ran { success, code, stdout, stderr } => search_result(
                plan.pattern@,
                plan.path@,
                success,
                code,
                lossy(stdout@),
                lossy(stderr@),
                plan.offset,
                plan.head_limit,
            ),
        },
{
    match outcome {
        GrepOutcome::NotRun(e) => err(text::cat2("Failed to run ripgrep: ", e.as_str())),
        GrepOutcome::Ran { success, code, stdout, stderr } => {
            let out = read_lossy(stdout);
            let errs = read_lossy(stderr);
            grep_text(plan, *success, *code, out.as_str(), errs.as_str())
        },
    }
}

// ---------------------------------------------------------------------------
// Requests
// ---------------------------------------------------------------------------

/// What is to be done for a request.
pub enum ToolPlan {
    /// Answer at once.
    Answer(OmegaToolResult),
    /// Run a command.
    Bash { command: String, timeout_ms: u64 },
    /// Read an image.
    ReadImage { path: String },
    /// Read a document.
    ReadPdf { path: String },
    /// Read a text.
    ReadText { path: String, offset: Option<usize>, limit: Option<usize> },
    /// Write a file.
    Write { path: String, content: String },
    /// Replace text in a file.
    Edit(EditPlan),
    /// Look for files.
    Glob { pattern: String, full_pattern: String },
    /// Search files.
    Grep(GrepPlan),
}

/// A number of lines.
pub open spec fn line_count(n: Option<u64>) -> Option<usize> {
    match n {
        Some(n) => Some(n as usize),
        None => None,
    }
}

/// Whether a plan is what is to be done for a request. `cwd` is where the
/// daemon runs, where that is known.
pub open spec fn plan_matches(
    plan: ToolPlan,
    tool: Seq<char>,
    args: JsonTree,
    cwd: Option<Seq<char>>,
) -> bool {
    let file_path = args.text_or_empty("file_path"@);
    let pattern = args.text_or_empty("pattern"@);
    if tool == "Bash"@ {
        plan matches ToolPlan::Bash { command, timeout_ms } && command@ == args.text_or_empty(
            "command"@,
        ) && timeout_ms == timeout_of(args)
    } else if tool == "Read"@ || tool == "Write"@ {
        if file_path.len() == 0 {
            plan matches ToolPlan::Answer(r) && r@ == bad("Missing required field: file_path"@)
        } else if tool == "Write"@ {
            plan matches ToolPlan::Write { path, content } && path@ == file_path && content@
                == args.text_or_empty("content"@)
        } else {
            match kind_of_path(file_path) {
                FileKind::Image => plan matches ToolPlan::ReadImage { path } && path@ == file_path,
                FileKind::Pdf => plan matches ToolPlan::ReadPdf { path } && path@ == file_path,
                FileKind::Text => plan matches ToolPlan::ReadText { path, offset, limit } && path@
                    == file_path && offset == line_count(args.whole_field("offset"@)) && limit
                    == line_count(args.whole_field("limit"@)),
            }
        }
    } else if tool == "Edit"@ {
        match edit_refusal(args) {
            Some(s) => plan matches ToolPlan::Answer(r) && r@ == bad(s),
            None => plan matches ToolPlan::Edit(p) && is_edit_plan(p, args),
        }
    } else if tool == "Glob"@ {
        if pattern.len() == 0 {
            plan matches ToolPlan::Answer(r) && r@ == bad("Missing required field: pattern"@)
        } else {
            plan matches ToolPlan::Glob { pattern: p, full_pattern } && p@ == pattern
                && full_pattern@ == full_pattern_of(
                pattern,
                match args.text_field("path"@) {
                    Some(s) => s,
                    None => match cwd {
                        Some(s) => s,
                        None => seq![],
                    },
                },
            )
        }
    } else if tool == "Grep"@ {
        let path = match args.text_field("path"@) {
            Some(s) => s,
            None => match cwd {
                Some(s) => s,
                None => "."@,
            },
        };
        if pattern.len() == 0 {
            plan matches ToolPlan::Answer(r) && r@ == bad("Missing required field: pattern"@)
        } else {
            plan matches ToolPlan::Grep(p) && p.pattern@ == pattern && p.path@ == path
                && text::views(p.args@) == search_args(args, pattern, path) && p.offset
                == line_count(args.whole_field("offset"@)) && p.head_limit == line_count(
                args.whole_field("head_limit"@),
            )
        }
    } else {
        plan matches ToolPlan::Answer(r) && r@ == bad("Unknown tool: "@ + tool)
    }
}

/// What is to be done for a request to read a file.
fn plan_read(args: &Json, path: String) -> (r: ToolPlan)
    requires
        path@ == args@.text_or_empty("file_path"@),
        path@.len() > 0,
    ensures
        match kind_of_path(path@) {
            FileKind::Image => r matches ToolPlan::ReadImage { path: p } && p@ == path@,
            FileKind::Pdf => r matches ToolPlan::ReadPdf { path: p } && p@ == path@,
            FileKind::Text => r matches ToolPlan::ReadText { path: p, offset, limit } && p@
                == path@ && offset == line_count(args@.whole_field("offset"@)) && limit
                == line_count(args@.whole_field("limit"@)),
        },
{
    match file_kind(path.as_str()) {
        FileKind::Image => ToolPlan::ReadImage { path },
        FileKind::Pdf => ToolPlan::ReadPdf { path },
        FileKind::Text => {
            let offset = count_of(args.get_whole("offset"));
            let limit = count_of(args.get_whole("limit"));
            ToolPlan::ReadText { path, offset, limit }
        },
    }
}

/// A number of lines.
fn count_of(n: Option<u64>) -> (r: Option<usize>)
    ensures
        r == line_count(n),
{
    match n {
        Some(n) => Some(n as usize),
        None => None,
    }
}

/// What is to be done for a request. `cwd` is where the daemon runs, where that
/// is known.
pub fn plan_request(tool: &str, args: &Json, cwd: Option<String>) -> (r: ToolPlan)
    ensures
        plan_matches(
            r,
            tool@,
            args@,
            match cwd {
                Some(s) => Some(s@),
                None => None,
            },
        ),
{
    if text::same(tool, "Bash") {
        return ToolPlan::Bash {
            command: args.text_or_empty("command"),
            timeout_ms: read_timeout(args),
        };
    }
    if text::same(tool, "Read") || text::same(tool, "Write") {
        let path = args.text_or_empty("file_path");
        if path.as_str().is_empty() {
            return ToolPlan::Answer(err("Missing required field: file_path".to_owned()));
        }
        if text::same(tool, "Write") {
            return ToolPlan::Write { path, content: args.text_or_empty("content") };
        }
        return plan_read(args, path);
    }
    if text::same(tool, "Edit") {
        return match edit_plan(args) {
            Ok(p) => ToolPlan::Edit(p),
            Err(x) => ToolPlan::Answer(x),
        };
    }
    if text::same(tool, "Glob") || text::same(tool, "Grep") {
        let pattern = args.text_or_empty("pattern");
        if pattern.as_str().is_empty() {
            return ToolPlan::Answer(err("Missing required field: pattern".to_owned()));
        }
        let globbing = text::same(tool, "Glob");
        let path = match args.get_text("path") {
            Some(s) => s,
            None => match cwd {
                Some(s) => s,
                None => if globbing { String::new() } else { ".".to_owned() },
            },
        };
        assert(args@.text_field("path"@) is None && cwd is None && globbing ==> path@ =~= seq![]);
        if globbing {
            let full_pattern = full_pattern(pattern.as_str(), path.as_str());
            return ToolPlan::Glob { pattern, full_pattern };
        }
        let v = grep_args(args, pattern.as_str(), path.as_str());
        let offset = count_of(args.get_whole("offset"));
        let head_limit = count_of(args.get_whole("head_limit"));
        return ToolPlan::Grep(GrepPlan { pattern, path, args: v, offset, head_limit });
    }
    ToolPlan::Answer(err(text::cat2("Unknown tool: ", tool)))
}

/// The answer to a line that is no request.
pub fn invalid_request(message: &str) -> (r: OmegaResponse)
    ensures
        r.id@ == "unknown"@,
        r.result@ == bad("Invalid JSON: "@ + message@),
{
    OmegaResponse {
        id: "unknown".to_owned(),
        result: err(text::cat2("Invalid JSON: ", message)),
    }
}

/// The line of a connection that holds a request: without white space round
/// it; a blank line holds none.
pub fn request_text(line: &str) -> (r: Option<String>)
    ensures
        match r {
            Some(s) => s@ == text::trimmed(line@) && s@.len() > 0,
            None => text::trimmed(line@).len() == 0,
        },
{
    let s = text::trim(line);
    if s.as_str().is_empty() {
        None
    } else {
        Some(s)
    }
}

/// The socket of the shell daemon: the one that the environment names, or else
/// the usual one.
pub fn socket_path(named: Option<String>) -> (r: String)
    ensures
        r@ == match named {
            Some(s) => s@,
            None => "/tmp/omega-sh.sock"@,
        },
{
    match named {
        Some(s) => s,
        None => "/tmp/omega-sh.sock".to_owned(),
    }
}

// ---------------------------------------------------------------------------
// Laws
// ---------------------------------------------------------------------------

/// The names of the tools differ.
proof fn tool_names_differ()
    ensures
        "Bash"@ != "Read"@,
        "Bash"@ != "Write"@,
        "Bash"@ != "Edit"@,
        "Bash"@ != "Glob"@,
        "Bash"@ != "Grep"@,
        "Read"@ != "Write"@,
        "Read"@ != "Edit"@,
        "Read"@ != "Glob"@,
        "Read"@ != "Grep"@,
        "Write"@ != "Edit"@,
        "Write"@ != "Glob"@,
        "Write"@ != "Grep"@,
        "Edit"@ != "Glob"@,
        "Edit"@ != "Grep"@,
        "Glob"@ != "Grep"@,
{
    reveal_strlit("Bash");
    reveal_strlit("Read");
    reveal_strlit("Write");
    reveal_strlit("Edit");
    reveal_strlit("Glob");
    reveal_strlit("Grep");
    assert("Write"@.len() == 5);
    assert("Bash"@.len() == 4 && "Bash"@[0] == 'B');
    assert("Read"@.len() == 4 && "Read"@[0] == 'R');
    assert("Edit"@.len() == 4 && "Edit"@[0] == 'E');
    assert("Glob"@.len() == 4 && "Glob"@[0] == 'G' && "Glob"@[1] == 'l');
    assert("Grep"@.len() == 4 && "Grep"@[0] == 'G' && "Grep"@[1] == 'r');
}

/// A command is run as it stands in the request, for as long as the request allows, but no
/// longer than ten minutes; where the request says nothing, for two minutes.
pub proof fn commands_are_run_as_asked(
    plan: ToolPlan,
    args: JsonTree,
    cwd: Option<Seq<char>>,
    s: Seq<char>,
)
    requires
        plan_matches(plan, "Bash"@, args, cwd),
        args.text_field("command"@) == Some(s),
    ensures
        plan matches ToolPlan::Bash { command, timeout_ms } && {
            &&& command@ == s
            &&& timeout_ms <= 600_000
            &&& args.whole_field("timeout"@) is None ==> timeout_ms == 120_000
            &&& args.whole_field("timeout"@) matches Some(n) ==> n <= 600_000 ==> timeout_ms == n
            &&& args.whole_field("timeout"@) matches Some(n) ==> n > 600_000 ==> timeout_ms
                == 600_000
        },
{
    tool_names_differ();
}

/// A file is written with the content of the request, under the path of the request,
/// whatever else the request holds.
pub proof fn files_are_written_as_asked(
    plan: ToolPlan,
    args: JsonTree,
    cwd: Option<Seq<char>>,
    p: Seq<char>,
    s: Seq<char>,
)
    requires
        plan_matches(plan, "Write"@, args, cwd),
        args.text_field("file_path"@) == Some(p),
        p.len() > 0,
        args.text_field("content"@) == Some(s),
    ensures
        plan matches ToolPlan::Write { path, content } && path@ == p && content@ == s,
{
    tool_names_differ();
}

/// Whether a number of lines is the one asked for, where it fits the machine's word.
pub open spec fn as_asked(asked: Option<u64>, given: Option<usize>) -> bool {
    match (asked, given) {
        (Some(n), Some(k)) => n <= usize::MAX ==> k == n,
        (None, None) => true,
        _ => false,
    }
}

/// The file that a request names is read, and of a text the lines that it asks for.
pub proof fn files_are_read_as_asked(
    plan: ToolPlan,
    args: JsonTree,
    cwd: Option<Seq<char>>,
    p: Seq<char>,
)
    requires
        plan_matches(plan, "Read"@, args, cwd),
        args.text_field("file_path"@) == Some(p),
        p.len() > 0,
    ensures
        match plan {
            ToolPlan::ReadImage { path } => path@ == p,
            ToolPlan::ReadPdf { path } => path@ == p,
            ToolPlan::ReadText { path, offset, limit } => {
                &&& path@ == p
                &&& as_asked(args.whole_field("offset"@), offset)
                &&& as_asked(args.whole_field("limit"@), limit)
            },
            _ => false,
        },
{
    tool_names_differ();
}

/// How a file is read is told by its extension: images and documents as such, all others
/// as text.
pub proof fn extensions_tell_how_files_are_read(path: Seq<char>, e: Seq<char>)
    requires
        paths::extension_of(path) == Some(e),
    ensures
        ({
            let l = text::lowercase(e);
            let image = l == "png"@ || l == "jpg"@ || l == "jpeg"@ || l == "gif"@ || l == "webp"@;
            &&& image ==> kind_of_path(path) is Image
            &&& l == "pdf"@ ==> kind_of_path(path) is Pdf
            &&& !image && l != "pdf"@ ==> kind_of_path(path) is Text
        }),
        e == "png"@ ==> media_type_of(path) == "image/png"@,
        e == "jpg"@ ==> media_type_of(path) == "image/jpeg"@,
        e == "jpeg"@ ==> media_type_of(path) == "image/jpeg"@,
        e == "gif"@ ==> media_type_of(path) == "image/gif"@,
        e == "webp"@ ==> media_type_of(path) == "image/webp"@,
{
    reveal_strlit("png");
    reveal_strlit("jpg");
    reveal_strlit("jpeg");
    reveal_strlit("gif");
    reveal_strlit("webp");
    reveal_strlit("pdf");
    assert("png"@.len() == 3 && "png"@[0] == 'p' && "png"@[1] == 'n');
    assert("pdf"@.len() == 3 && "pdf"@[0] == 'p' && "pdf"@[1] == 'd');
    assert("jpg"@.len() == 3 && "jpg"@[0] == 'j');
    assert("gif"@.len() == 3 && "gif"@[0] == 'g');
    assert("jpeg"@.len() == 4 && "jpeg"@[0] == 'j');
    assert("webp"@.len() == 4 && "webp"@[0] == 'w');
}

/// The text that a request names is replaced by the other text that it names, in the file
/// that it names, once or wherever it stands.
pub proof fn files_are_edited_as_asked(
    plan: ToolPlan,
    args: JsonTree,
    cwd: Option<Seq<char>>,
    p: Seq<char>,
    before: Seq<char>,
    after: Seq<char>,
    all: bool,
)
    requires
        plan_matches(plan, "Edit"@, args, cwd),
        args.text_field("file_path"@) == Some(p),
        p.len() > 0,
        args.text_field("old_string"@) == Some(before),
        before.len() > 0,
        args.text_field("new_string"@) == Some(after),
        before != after,
        args.field("replace_all"@) == Some(JsonTree::Bool(all)),
    ensures
        plan matches ToolPlan::Edit(e) && {
            &&& e.file_path@ == p
            &&& e.old_string@ == before
            &&& e.new_string@ == after
            &&& e.replace_all == all
        },
{
    tool_names_differ();
}

/// Files are looked for with the pattern of a request: as it is where it begins at the
/// root, and else under the directory of the request, or where the daemon runs.
pub proof fn files_are_found_as_asked(
    plan: ToolPlan,
    args: JsonTree,
    cwd: Option<Seq<char>>,
    s: Seq<char>,
)
    requires
        plan_matches(plan, "Glob"@, args, cwd),
        args.text_field("pattern"@) == Some(s),
        s.len() > 0,
    ensures
        plan matches ToolPlan::Glob { pattern, full_pattern } && {
            &&& pattern@ == s
            &&& s[0] == '/' ==> full_pattern@ == s
            &&& s[0] != '/' ==> (args.text_field("path"@) matches Some(dir) ==> full_pattern@ == dir
                + "/"@ + s)
            &&& s[0] != '/' && args.text_field("path"@) is None ==> (cwd matches Some(dir)
                ==> full_pattern@ == dir + "/"@ + s)
        },
{
    tool_names_differ();
}

/// Files are searched for the pattern of a request, under the path of the request, or where
/// the daemon runs.
pub proof fn files_are_searched_as_asked(
    plan: ToolPlan,
    args: JsonTree,
    cwd: Option<Seq<char>>,
    s: Seq<char>,
)
    requires
        plan_matches(plan, "Grep"@, args, cwd),
        args.text_field("pattern"@) == Some(s),
        s.len() > 0,
    ensures
        plan matches ToolPlan::Grep(g) && {
            &&& g.pattern@ == s
            &&& args.text_field("path"@) matches Some(dir) ==> g.path@ == dir
            &&& args.text_field("path"@) is None ==> (cwd matches Some(dir) ==> g.path@ == dir)
            &&& args.text_field("path"@) is None && cwd is None ==> g.path@ == "."@
            &&& text::views(g.args@) == search_args(args, s, g.path@)
            &&& as_asked(args.whole_field("offset"@), g.offset)
            &&& as_asked(args.whole_field("head_limit"@), g.head_limit)
        },
{
    tool_names_differ();
}

/// Whether a request lacks what its tool needs, or names no tool that there is.
pub open spec fn cannot_be_done(tool: Seq<char>, args: JsonTree) -> bool {
    let path = args.text_field("file_path"@);
    ||| (tool == "Read"@ || tool == "Write"@) && path is None
    ||| tool == "Edit"@ && (path is None || args.text_field("old_string"@) is None)
    ||| (tool == "Glob"@ || tool == "Grep"@) && args.text_field("pattern"@) is None
    ||| !(seq!["Bash"@, "Read"@, "Write"@, "Edit"@, "Glob"@, "Grep"@].contains(tool))
}

/// A request that lacks what its tool needs, or names no tool that there is, does nothing
/// and is answered with an error.
pub proof fn bad_requests_do_nothing(
    plan: ToolPlan,
    tool: Seq<char>,
    args: JsonTree,
    cwd: Option<Seq<char>>,
)
    requires
        plan_matches(plan, tool, args, cwd),
        cannot_be_done(tool, args),
    ensures
        plan matches ToolPlan::Answer(r) && r.is_error,
{
    tool_names_differ();
    let all = seq!["Bash"@, "Read"@, "Write"@, "Edit"@, "Glob"@, "Grep"@];
    assert(all[0] == "Bash"@ && all[1] == "Read"@ && all[2] == "Write"@);
    assert(all[3] == "Edit"@ && all[4] == "Glob"@ && all[5] == "Grep"@);
    if let ToolPlan::Answer(r) = plan {
        assert(r.is_error == r@.is_error);
    }
}

/// Whether a program is called with an option and its value.
pub open spec fn called_with(v: Seq<Seq<char>>, name: Seq<char>, value: Seq<char>) -> bool {
    exists|k: int| 0 <= k < v.len() - 1 && #[trigger] v[k] == name && v[k + 1] == value
}

/// The search program is called with the pattern and the path first, and with each option
/// that the request names.
pub proof fn searches_get_their_options(args: JsonTree, pattern: Seq<char>, path: Seq<char>)
    ensures
        ({
            let v = search_args(args, pattern, path);
            &&& v.len() >= 2 && v[0] == pattern && v[1] == path
            &&& args.field("-i"@) == Some(JsonTree::Bool(true)) ==> v.contains("-i"@)
            &&& args.text_field("type"@) matches Some(t) ==> called_with(v, "--type"@, t)
            &&& args.text_field("glob"@) matches Some(g) ==> called_with(v, "--glob"@, g)
            &&& args.field("multiline"@) == Some(JsonTree::Bool(true)) ==> v.contains("-U"@)
                && v.contains("--multiline-dotall"@)
            &&& v.contains("--color=never"@)
        }),
{
    let v = search_args(args, pattern, path);
    let a = seq![pattern, path] + mode_options(args);
    let b = if args.flag("-i"@) {
        seq!["-i"@]
    } else {
        seq![]
    };
    let c = text_option("--type"@, args.text_field("type"@));
    let d = text_option("--glob"@, args.text_field("glob"@));
    let e = if args.flag("multiline"@) {
        seq!["-U"@, "--multiline-dotall"@]
    } else {
        seq![]
    };
    assert(v == a + b + c + d + e + seq!["--color=never"@]);
    if args.flag("-i"@) {
        assert(v[a.len() as int] == "-i"@);
    }
    if let Some(t) = args.text_field("type"@) {
        let k = (a + b).len() as int;
        assert(v[k] == "--type"@ && v[k + 1] == t);
    }
    if let Some(g) = args.text_field("glob"@) {
        let k = (a + b + c).len() as int;
        assert(v[k] == "--glob"@ && v[k + 1] == g);
    }
    if args.flag("multiline"@) {
        let k = (a + b + c + d).len() as int;
        assert(v[k] == "-U"@ && v[k + 1] == "--multiline-dotall"@);
    }
    assert(v.last() == "--color=never"@);
}

/// What a search shows is what the request asks for: lines with their numbers and lines
/// round them, how many there are, or else the names of the files.
pub proof fn searches_show_what_is_asked(args: JsonTree)
    ensures
        args.text_field("output_mode"@) is None ==> mode_options(args) == seq!["-l"@],
        args.text_field("output_mode"@) == Some("files_with_matches"@) ==> mode_options(args)
            == seq!["-l"@],
        args.text_field("output_mode"@) == Some("count"@) ==> mode_options(args) == seq!["-c"@],
        args.text_field("output_mode"@) == Some("content"@) ==> {
            let v = mode_options(args);
            &&& args.field("-n"@) is None ==> v.contains("-n"@)
            &&& args.whole_field("-A"@) matches Some(n) ==> called_with(
                v,
                "-A"@,
                text::decimal(n as nat),
            )
            &&& args.whole_field("-B"@) matches Some(n) ==> called_with(
                v,
                "-B"@,
                text::decimal(n as nat),
            )
            &&& args.whole_field("-C"@) matches Some(n) ==> called_with(
                v,
                "-C"@,
                text::decimal(n as nat),
            )
        },
{
    reveal_strlit("files_with_matches");
    reveal_strlit("count");
    reveal_strlit("content");
    assert("files_with_matches"@.len() == 18);
    assert("count"@.len() == 5);
    assert("content"@.len() == 7);
    let v = mode_options(args);
    if args.text_field("output_mode"@) == Some("content"@) {
        let a = if args.flag_or("-n"@, true) {
            seq!["-n"@]
        } else {
            seq![]
        };
        let b = number_option("-B"@, args.whole_field("-B"@));
        let c = number_option("-A"@, args.whole_field("-A"@));
        let d = number_option("-C"@, args.whole_field("-C"@));
        assert(v =~= a + b + c + d);
        if args.flag_or("-n"@, true) {
            assert(v[0] == "-n"@);
        }
        if let Some(n) = args.whole_field("-B"@) {
            let k = a.len() as int;
            assert(v[k] == "-B"@ && v[k + 1] == text::decimal(n as nat));
        }
        if let Some(n) = args.whole_field("-A"@) {
            let k = (a + b).len() as int;
            assert(v[k] == "-A"@ && v[k + 1] == text::decimal(n as nat));
        }
        if let Some(n) = args.whole_field("-C"@) {
            let k = (a + b + c).len() as int;
            assert(v[k] == "-C"@ && v[k + 1] == text::decimal(n as nat));
        }
    }
}

/// What a command printed is its answer: as it is, but for white space round it, where it
/// went well and printed no errors; under a heading, what it printed as errors; and behind
/// its exit code, where it failed.
pub proof fn commands_are_answered_with_their_output(
    code: int,
    stdout: Seq<char>,
    stderr: Seq<char>,
)
    requires
        text::byte_len(combined(stdout, stderr)) <= 30_000,
    ensures
        ({
            let r = command_result(code, stdout, stderr);
            let out = text::trimmed(stdout);
            let errs = text::trimmed(stderr);
            &&& r.content is Text
            &&& r.is_error == (code != 0)
            &&& code == 0 && errs.len() == 0 && out.len() > 0 ==> r.content->Text_data == out
            &&& code == 0 && errs.len() == 0 && out.len() == 0 ==> r.content->Text_data
                == "Command completed successfully (no output)"@
            &&& code == 0 && errs.len() > 0 && out.len() > 0 ==> r.content->Text_data == out
                + "\n"@ + "STDERR:\n"@ + errs
            &&& code == 0 && errs.len() > 0 && out.len() == 0 ==> r.content->Text_data
                == "STDERR:\n"@ + errs
            &&& code != 0 && errs.len() == 0 ==> r.content->Text_data
                == "Command failed with exit code "@ + text::signed_decimal(code) + "\n"@ + out
        }),
{
    let s = combined(stdout, stderr);
    if text::trimmed(stderr).len() > 0 {
        assert(s.len() > 0);
    }
}

/// A command that could not be run, or ran too long, is answered with an error that says
/// so; one that a signal ended counts as failed.
pub proof fn commands_that_failed_are_errors(
    e: String,
    timeout_ms: u64,
    stdout: Vec<u8>,
    stderr: Vec<u8>,
)
    ensures
        bash_answer(BashOutcome::NotStarted(e), timeout_ms) == (ResultModel {
            content: ContentModel::Text { data: "Failed to spawn shell: "@ + e@ },
            is_error: true,
        }),
        bash_answer(BashOutcome::NotRead(e), timeout_ms) == (ResultModel {
            content: ContentModel::Text { data: "Failed to read output: "@ + e@ },
            is_error: true,
        }),
        bash_answer(BashOutcome::TimedOut, timeout_ms) == (ResultModel {
            content: ContentModel::Text {
                data: "Command timed out after "@ + text::decimal(timeout_ms as nat) + "ms"@,
            },
            is_error: true,
        }),
        bash_answer(BashOutcome::Ran { exit_code: None, stdout, stderr }, timeout_ms).is_error,
        !bash_answer(
            BashOutcome::Ran { exit_code: Some(0i32), stdout, stderr },
            timeout_ms,
        ).is_error,
{
}

/// Every line that is read of a text is shown behind its number, and no other.
pub proof fn lines_are_shown_with_their_numbers(lines: Seq<Seq<char>>, from: int, to: int, i: int)
    requires
        0 <= from <= i < to <= lines.len(),
        text::byte_len(lines[i]) <= 2000,
    ensures
        exists|a: Seq<char>, b: Seq<char>|
            numbered(lines, from, to) == #[trigger] (a + text::right_aligned(
                text::decimal((i + 1) as nat),
                6,
            ) + "\t"@ + lines[i] + "\n"@ + b),
        numbered(lines, from, from) == Seq::<char>::empty(),
    decreases to,
{
    let line = text::right_aligned(text::decimal((i + 1) as nat), 6) + "\t"@ + lines[i] + "\n"@;
    let number = text::right_aligned(text::decimal((i + 1) as nat), 6);
    if i == to - 1 {
        let a = numbered(lines, from, i);
        assert(numbered(lines, from, to) =~= a + number + "\t"@ + lines[i] + "\n"@
            + Seq::<char>::empty());
    } else {
        lines_are_shown_with_their_numbers(lines, from, to - 1, i);
        let (a, b) = choose|a: Seq<char>, b: Seq<char>|
            numbered(lines, from, to - 1) == #[trigger] (a + number + "\t"@ + lines[i] + "\n"@ + b);
        let more = text::right_aligned(text::decimal(to as nat), 6) + "\t"@ + shown_line(
            lines[to - 1],
        ) + "\n"@;
        assert(numbered(lines, from, to) =~= a + number + "\t"@ + lines[i] + "\n"@ + (b + more));
    }
}

/// A text that is read shows its lines from the one that was asked for, as many as were
/// asked for, or two thousand; what lies beyond its end is not shown.
pub proof fn texts_show_the_lines_asked_for(
    path: Seq<char>,
    content: Seq<char>,
    offset: Option<usize>,
    limit: Option<usize>,
)
    requires
        offset matches Some(n) ==> n > 0,
    ensures
        ({
            let lines = text::lines_of(content);
            let r = text_answer(path, content, offset, limit);
            let first = match offset {
                Some(n) => n - 1,
                None => 0,
            };
            let count = match limit {
                Some(n) => n as int,
                None => 2000,
            };
            &&& !r.is_error
            &&& r.content is Text
            &&& first + count >= lines.len() && first < lines.len() ==> r.content->Text_data
                == "File: "@ + path + "\n\n"@ + numbered(lines, first, lines.len() as int)
            &&& first + count < lines.len() ==> r.content->Text_data == "File: "@ + path + "\n\n"@
                + numbered(lines, first, first + count) + ("\n... ("@ + text::decimal(
                (lines.len() - first - count) as nat,
            ) + " more lines, use offset and limit to read more)\n"@)
        }),
{
    let r = text_answer(path, content, offset, limit).content->Text_data;
    let lines = text::lines_of(content);
    let first = start_line(offset);
    assert("File: "@ + path + "\n\n"@ + numbered(lines, first, lines.len() as int)
        + Seq::<char>::empty() =~= "File: "@ + path + "\n\n"@ + numbered(
        lines,
        first,
        lines.len() as int,
    ));
}

/// The files that a search finds are listed, one on each line, up to a hundred.
pub proof fn found_files_are_listed(files: Seq<FileModel>, n: int, i: int)
    requires
        0 <= i < n <= files.len(),
    ensures
        exists|a: Seq<char>, b: Seq<char>|
            listed(files, n) == #[trigger] (a + files[i].0 + "\n"@ + b),
    decreases n,
{
    if i == n - 1 {
        assert(listed(files, n) =~= listed(files, i) + files[i].0 + "\n"@ + Seq::<char>::empty());
    } else {
        found_files_are_listed(files, n - 1, i);
        let (a, b) = choose|a: Seq<char>, b: Seq<char>|
            listed(files, n - 1) == #[trigger] (a + files[i].0 + "\n"@ + b);
        assert(listed(files, n) =~= a + files[i].0 + "\n"@ + (b + files[n - 1].0 + "\n"@));
    }
}

/// A search for files says how many it found, and lists them, newest first: all of them, or
/// the first hundred and how many more there are.
pub proof fn finding_files_tells_how_many(pattern: Seq<char>, files: Seq<FileModel>)
    ensures
        ({
            let r = glob_answer(pattern, files);
            &&& !r.is_error
            &&& r.content is Text
            &&& files.len() == 0 ==> r.content->Text_data == "No files found matching pattern: "@
                + pattern
            &&& 0 < files.len() <= 100 ==> r.content->Text_data == "Found "@ + text::decimal(
                files.len(),
            ) + " files matching '"@ + pattern + "':\n"@ + listed(
                newest_first(files),
                files.len() as int,
            )
            &&& files.len() > 100 ==> r.content->Text_data == "Found "@ + text::decimal(files.len())
                + " files matching '"@ + pattern + "':\n"@ + listed(newest_first(files), 100)
                + ("... and "@ + text::decimal((files.len() - 100) as nat) + " more\n"@)
        }),
{
    let r = glob_answer(pattern, files).content->Text_data;
    let head = "Found "@ + text::decimal(files.len()) + " files matching '"@ + pattern + "':\n"@;
    let all = listed(newest_first(files), files.len() as int);
    assert(head + all + Seq::<char>::empty() =~= head + all);
}

/// What a search printed is its answer, without the lines before those asked for and
/// behind them; a search that found nothing, or could not look, says so.
pub proof fn searches_are_answered_with_their_output(
    pattern: Seq<char>,
    path: Seq<char>,
    code: Option<i32>,
    stdout: Seq<char>,
    stderr: Seq<char>,
    n: usize,
)
    requires
        stdout.len() > 0,
        n <= text::lines_of(stdout).len(),
    ensures
        search_result(pattern, path, true, code, stdout, stderr, None, None) == (ResultModel {
            content: ContentModel::Text { data: text::joined(text::lines_of(stdout), "\n"@) },
            is_error: false,
        }),
        search_result(pattern, path, true, code, stdout, stderr, Some(n), None) == (ResultModel {
            content: ContentModel::Text {
                data: text::joined(text::lines_of(stdout).skip(n as int), "\n"@),
            },
            is_error: false,
        }),
        search_result(pattern, path, true, code, stdout, stderr, None, Some(n)) == (ResultModel {
            content: ContentModel::Text {
                data: text::joined(text::lines_of(stdout).take(n as int), "\n"@),
            },
            is_error: false,
        }),
        !text::contains(stderr, "No such file or directory"@) ==> search_result(
            pattern,
            path,
            false,
            Some(1i32),
            Seq::empty(),
            stderr,
            None,
            None,
        ) == (ResultModel {
            content: ContentModel::Text { data: "No matches found for pattern: "@ + pattern },
            is_error: false,
        }),
{
    let all = text::lines_of(stdout);
    assert(all.skip(all.len() as int) =~= seq![]);
    assert(all.take(all.len() as int) =~= all);
}

/// What is wrong with a request is said.
pub proof fn bad_requests_are_told_why(
    plan: ToolPlan,
    tool: Seq<char>,
    args: JsonTree,
    cwd: Option<Seq<char>>,
)
    requires
        plan_matches(plan, tool, args, cwd),
    ensures
        (tool == "Read"@ || tool == "Write"@) && args.text_field("file_path"@) is None ==> (
        plan matches ToolPlan::Answer(r) && r@ == (ResultModel {
            content: ContentModel::Text { data: "Missing required field: file_path"@ },
            is_error: true,
        })),
        (tool == "Glob"@ || tool == "Grep"@) && args.text_field("pattern"@) is None ==> (
        plan matches ToolPlan::Answer(r) && r@ == (ResultModel {
            content: ContentModel::Text { data: "Missing required field: pattern"@ },
            is_error: true,
        })),
        tool == "Edit"@ && (args.text_field("file_path"@) is None || args.text_field(
            "old_string"@,
        ) is None) ==> (plan matches ToolPlan::Answer(r) && r@ == (ResultModel {
            content: ContentModel::Text {
                data: "Missing required fields: file_path, old_string"@,
            },
            is_error: true,
        })),
        tool == "Edit"@ && args.text_or_empty("file_path"@).len() > 0 && args.text_or_empty(
            "old_string"@,
        ).len() > 0 && args.text_field("old_string"@) == args.text_field("new_string"@) ==> (
        plan matches ToolPlan::Answer(r) && r@ == (ResultModel {
            content: ContentModel::Text { data: "old_string and new_string must be different"@ },
            is_error: true,
        })),
        tool != "Bash"@ && tool != "Read"@ && tool != "Write"@ && tool != "Edit"@ && tool
            != "Glob"@ && tool != "Grep"@ ==> (plan matches ToolPlan::Answer(r) && r@ == (
        ResultModel { content: ContentModel::Text { data: "Unknown tool: "@ + tool }, is_error: true }
        )),
{
    tool_names_differ();
}

/// Text that stands in a file once is replaced there, and what is before and behind it stays.
pub proof fn text_is_replaced_in_place(
    a: Seq<char>,
    before: Seq<char>,
    b: Seq<char>,
    after: Seq<char>,
)
    requires
        before.len() > 0,
        forall|i: int| 0 <= i < a.len() ==> !text::occurs_at(a + before + b, before, i),
    ensures
        edited(a + before + b, before, after, false) == a + after + b,
        edited(a + before + b, before, after, true) == a + after + edited(b, before, after, true),
        content_refusal(a + before + b, before, true) is None,
        text::occurrences(b, before) == 0 ==> content_refusal(a + before + b, before, false)
            is None,
        text::occurrences(b, before) > 0 ==> content_refusal(a + before + b, before, false)
            is Some,
        text::occurrences(b, before) == 0 ==> edited(b, before, after, true) == b,
{
    let s = a + before + b;
    let k = a.len() as int;
    assert(s.subrange(k, k + before.len()) =~= before);
    text::the_first_text_is_found(s, before, k);
    assert(s.take(k) =~= a);
    assert(s.skip(k + before.len()) =~= b);
    reveal_with_fuel(text::replaced, 2);
    assert(text::replaced(s, before, after, 1) =~= a + after + b);
    if text::occurrences(b, before) == 0 {
        text::replacing_nothing(b, before, after, 0);
    }
}

/// A file is not changed where the text is not in it, or is in it more than once and only one
/// place is meant; why is said.
pub proof fn edits_that_cannot_be_done_are_told(content: Seq<char>, before: Seq<char>, all: bool)
    ensures
        text::occurrences(content, before) == 0 ==> content_refusal(content, before, all) == Some(
            "String not found in file. Make sure to include exact text including whitespace."@,
        ),
        text::occurrences(content, before) > 1 && !all ==> content_refusal(content, before, all)
            == Some(
            "Found "@ + text::decimal(text::occurrences(content, before))
                + " occurrences of the string. Either provide a more specific string to ensure only one match, or use replace_all: true to change every instance."@,
        ),
{
}

/// A search that found nothing says why; a file that is too short says how long it is; a line
/// that is too long is cut.
pub proof fn empty_answers_are_told(
    pattern: Seq<char>,
    path: Seq<char>,
    code: Option<i32>,
    stderr: Seq<char>,
    content: Seq<char>,
    offset: usize,
    limit: Option<usize>,
    line: Seq<char>,
)
    requires
        offset > text::lines_of(content).len(),
    ensures
        ({
            let r = search_result(
                pattern,
                path,
                false,
                code,
                Seq::empty(),
                stderr,
                None,
                None,
            );
            let missing = text::contains(stderr, "No such file or directory"@);
            &&& !r.is_error && r.content is Text
            &&& missing ==> r.content->Text_data == "Path not found: "@ + path
            &&& !missing && code == Some(1i32) ==> r.content->Text_data
                == "No matches found for pattern: "@ + pattern
            &&& !missing && code != Some(1i32) ==> r.content->Text_data == "Search error: "@
                + stderr
        }),
        text_answer(path, content, Some(offset), limit).content->Text_data == "File has "@
            + text::decimal(text::lines_of(content).len()) + " lines. Requested offset "@
            + text::decimal(offset as nat) + " is out of range."@,
        text::byte_len(line) > 2000 ==> shown_line(line) == text::first_bytes(line, 2000) + "..."@,
        text::byte_len(line) <= 2000 ==> shown_line(line) == line,
{
}

/// The media type of a picture goes by the kind of its file; other files are bytes.
pub proof fn other_files_are_bytes(path: Seq<char>)
    ensures
        paths::extension_of(path) is None ==> media_type_of(path) == "application/octet-stream"@,
        (paths::extension_of(path) matches Some(e) && e != "png"@ && e != "jpg"@ && e != "jpeg"@
            && e != "gif"@ && e != "webp"@) ==> media_type_of(path)
            == "application/octet-stream"@,
{
}

/// A call is told by its command, cut to a hundred characters, by its file or by its pattern.
pub proof fn calls_are_told_by_what_they_do(tool: Seq<char>, args: JsonTree, s: Seq<char>)
    ensures
        tool == "Bash"@ && args.text_field("command"@) == Some(s) && text::byte_len(s) <= 100
            && s.len() <= 100 ==> telling_param(tool, args) == s,
        tool == "Bash"@ && args.text_field("command"@) == Some(s) && text::byte_len(s) > 100
            && s.len() > 100 ==> telling_param(tool, args) == s.take(100).push('\u{2026}'),
        (tool == "Read"@ || tool == "Write"@ || tool == "Edit"@) && args.text_field("file_path"@)
            == Some(s) ==> telling_param(tool, args) == s,
        (tool == "Glob"@ || tool == "Grep"@) && args.text_field("pattern"@) == Some(s)
            ==> telling_param(tool, args) == s,
        tool != "Bash"@ && tool != "Read"@ && tool != "Write"@ && tool != "Edit"@ && tool
            != "Glob"@ && tool != "Grep"@ ==> telling_param(tool, args).len() == 0,
{
    tool_names_differ();
}

} // verus!
