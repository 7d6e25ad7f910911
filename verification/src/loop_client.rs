//! The client's side of the agent daemon's protocol: events read from lines of
//! JSON, and requests written as lines of JSON.

use vstd::prelude::*;

use crate::json;
use crate::json::{Json, JsonError, JsonTree};
use crate::text;

verus! {

// ---------------------------------------------------------------------------
// Events
// ---------------------------------------------------------------------------

/// An event of the daemon.
pub enum ServerEvent {
    /// A session was created.
    Created { session_id: String, session_name: String },
    /// A piece of output of a session.
    Chunk { session_id: String, chunk: OutputChunk },
    /// An event of another type.
    Unknown(Json),
}

/// A piece of output.
pub enum OutputChunk {
    TextDelta(String),
    TextComplete(String),
    ThinkingDelta(String),
    ThinkingComplete(String),
    ToolStart { id: String, name: String, input: Json },
    ToolProgress { id: String, output: String },
    ToolEnd { id: String, result: ToolResultWire },
    AskUserQuestion { request_id: String, questions: Vec<UserQuestionWire> },
    Status(String),
    Error(String),
    Done,
    Unknown,
}

/// What a tool returned.
pub struct ToolResultWire {
    pub text: String,
    pub is_error: bool,
    pub content: Option<Vec<ContentBlockWire>>,
}

/// A part of what a tool returned.
pub struct ContentBlockWire {
    pub block_type: String,
    pub text: Option<String>,
}

/// A question to the user.
pub struct UserQuestionWire {
    pub question: String,
    pub header: String,
    pub options: Vec<QuestionOptionWire>,
    pub multi_select: bool,
}

/// An answer that a question offers.
pub struct QuestionOptionWire {
    pub label: String,
    pub description: String,
}

/// A part of what a tool returned.
#[verifier::ext_equal]
pub struct PartModel {
    pub block_type: Seq<char>,
    pub text: Option<Seq<char>>,
}

/// What a tool returned, as text, and in parts where it came in parts.
#[verifier::ext_equal]
pub struct ResultModel {
    pub text: Seq<char>,
    pub is_error: bool,
    pub content: Option<Seq<PartModel>>,
}

/// An answer that a question offers.
pub struct OptionModel {
    pub label: Seq<char>,
    pub description: Seq<char>,
}

/// A question to the user.
pub struct QuestionModel {
    pub question: Seq<char>,
    pub header: Seq<char>,
    pub options: Seq<OptionModel>,
    pub multi_select: bool,
}

/// What a piece of output says.
pub enum ChunkModel {
    TextDelta(Seq<char>),
    TextComplete(Seq<char>),
    ThinkingDelta(Seq<char>),
    ThinkingComplete(Seq<char>),
    ToolStart { id: Seq<char>, name: Seq<char>, input: JsonTree },
    ToolProgress { id: Seq<char>, output: Seq<char> },
    ToolEnd { id: Seq<char>, result: ResultModel },
    AskUserQuestion { request_id: Seq<char>, questions: Seq<QuestionModel> },
    Status(Seq<char>),
    Error(Seq<char>),
    Done,
    Unknown,
}

/// What an event says.
pub enum EventModel {
    Created { session_id: Seq<char>, session_name: Seq<char> },
    Chunk { session_id: Seq<char>, chunk: ChunkModel },
    Unknown(JsonTree),
}

impl View for ContentBlockWire {
    type V = PartModel;

    open spec fn view(&self) -> PartModel {
        PartModel { block_type: self.block_type@, text: text::opt_view(self.text) }
    }
}

impl View for ToolResultWire {
    type V = ResultModel;

    open spec fn view(&self) -> ResultModel {
        ResultModel {
            text: self.text@,
            is_error: self.is_error,
            content: match self.content {
                Some(parts) => Some(Seq::new(parts@.len(), |i: int| parts@[i]@)),
                None => None,
            },
        }
    }
}

impl View for QuestionOptionWire {
    type V = OptionModel;

    open spec fn view(&self) -> OptionModel {
        OptionModel { label: self.label@, description: self.description@ }
    }
}

impl View for UserQuestionWire {
    type V = QuestionModel;

    open spec fn view(&self) -> QuestionModel {
        QuestionModel {
            question: self.question@,
            header: self.header@,
            options: Seq::new(self.options@.len(), |i: int| self.options@[i]@),
            multi_select: self.multi_select,
        }
    }
}

impl View for OutputChunk {
    type V = ChunkModel;

    open spec fn view(&self) -> ChunkModel {
        match self {
            OutputChunk::TextDelta(s) => ChunkModel::TextDelta(s@),
            OutputChunk::TextComplete(s) => ChunkModel::TextComplete(s@),
            OutputChunk::ThinkingDelta(s) => ChunkModel::ThinkingDelta(s@),
            OutputChunk::ThinkingComplete(s) => ChunkModel::ThinkingComplete(s@),
            OutputChunk::ToolStart { id, name, input } => ChunkModel::ToolStart {
                id: id@,
                name: name@,
                input: input@,
            },
            OutputChunk::ToolProgress { id, output } => ChunkModel::ToolProgress {
                id: id@,
                output: output@,
            },
            OutputChunk::ToolEnd { id, result } => ChunkModel::ToolEnd { id: id@, result: result@ },
            OutputChunk::AskUserQuestion { request_id, questions } => ChunkModel::AskUserQuestion {
                request_id: request_id@,
                questions: Seq::new(questions@.len(), |i: int| questions@[i]@),
            },
            OutputChunk::Status(s) => ChunkModel::Status(s@),
            OutputChunk::Error(s) => ChunkModel::Error(s@),
            OutputChunk::Done => ChunkModel::Done,
            OutputChunk::Unknown => ChunkModel::Unknown,
        }
    }
}

impl View for ServerEvent {
    type V = EventModel;

    open spec fn view(&self) -> EventModel {
        match self {
            ServerEvent::Created { session_id, session_name } => EventModel::Created {
                session_id: session_id@,
                session_name: session_name@,
            },
            ServerEvent::Chunk { session_id, chunk } => EventModel::Chunk {
                session_id: session_id@,
                chunk: chunk@,
            },
            ServerEvent::Unknown(j) => EventModel::Unknown(j@),
        }
    }
}

// ---------------------------------------------------------------------------
// What the JSON says
// ---------------------------------------------------------------------------

/// The text of a tool's result: its text, a mark for an image, a mark with the
/// description for a document; empty where there is none of these.
pub open spec fn result_text(t: JsonTree) -> Seq<char> {
    match t.field("content"@) {
        Some(c) => {
            if c.field("Text"@) is Some {
                c.text_or_empty("Text"@)
            } else if c.field("Image"@) is Some {
                "[Image]"@
            } else {
                match c.field("Document"@) {
                    Some(d) => match d.text_field("description"@) {
                        Some(s) => "[Document: "@ + s + "]"@,
                        None => seq![],
                    },
                    None => seq![],
                }
            }
        },
        None => seq![],
    }
}

/// What a tool's result says; nothing where there is no result.
pub open spec fn result_of(t: Option<JsonTree>) -> Option<ResultModel> {
    match t {
        Some(t) => Some(
            ResultModel { text: result_text(t), is_error: t.flag("is_error"@), content: None },
        ),
        None => None,
    }
}

/// The answer that a value describes, where it has both texts.
pub open spec fn option_of(t: JsonTree) -> Option<OptionModel> {
    match (t.text_field("label"@), t.text_field("description"@)) {
        (Some(label), Some(description)) => Some(OptionModel { label, description }),
        _ => None,
    }
}

/// The answers among some values, in order.
pub open spec fn options_of(items: Seq<JsonTree>) -> Seq<OptionModel>
    decreases items.len(),
{
    if items.len() == 0 {
        seq![]
    } else {
        match option_of(items.last()) {
            Some(o) => options_of(items.drop_last()).push(o),
            None => options_of(items.drop_last()),
        }
    }
}

/// The question that a value describes, where it has both texts and a list of
/// answers.
pub open spec fn question_of(t: JsonTree) -> Option<QuestionModel> {
    match (t.text_field("question"@), t.text_field("header"@), t.field("options"@)) {
        (Some(question), Some(header), Some(JsonTree::Array(items))) => Some(
            QuestionModel {
                question,
                header,
                options: options_of(items),
                multi_select: t.flag("multi_select"@),
            },
        ),
        _ => None,
    }
}

/// The questions among some values, in order.
pub open spec fn questions_of(items: Seq<JsonTree>) -> Seq<QuestionModel>
    decreases items.len(),
{
    if items.len() == 0 {
        seq![]
    } else {
        match question_of(items.last()) {
            Some(q) => questions_of(items.drop_last()).push(q),
            None => questions_of(items.drop_last()),
        }
    }
}

/// The piece of output that a name and a value describe.
pub open spec fn tagged_chunk(key: Seq<char>, inner: JsonTree) -> ChunkModel {
    if key == "TextDelta"@ {
        match inner.text() {
            Some(s) => ChunkModel::TextDelta(s),
            None => ChunkModel::Unknown,
        }
    } else if key == "TextComplete"@ {
        match inner.text() {
            Some(s) => ChunkModel::TextComplete(s),
            None => ChunkModel::Unknown,
        }
    } else if key == "ThinkingDelta"@ {
        match inner.text() {
            Some(s) => ChunkModel::ThinkingDelta(s),
            None => ChunkModel::Unknown,
        }
    } else if key == "ThinkingComplete"@ {
        match inner.text() {
            Some(s) => ChunkModel::ThinkingComplete(s),
            None => ChunkModel::Unknown,
        }
    } else if key == "ToolStart"@ {
        ChunkModel::ToolStart {
            id: inner.text_or_empty("id"@),
            name: inner.text_or_empty("name"@),
            input: match inner.field("input"@) {
                Some(t) => t,
                None => JsonTree::Null,
            },
        }
    } else if key == "ToolProgress"@ {
        ChunkModel::ToolProgress {
            id: inner.text_or_empty("id"@),
            output: inner.text_or_empty("output"@),
        }
    } else if key == "ToolEnd"@ {
        ChunkModel::ToolEnd {
            id: inner.text_or_empty("id"@),
            result: match result_of(inner.field("result"@)) {
                Some(r) => r,
                None => ResultModel { text: seq![], is_error: false, content: None },
            },
        }
    } else if key == "AskUserQuestion"@ {
        ChunkModel::AskUserQuestion {
            request_id: inner.text_or_empty("request_id"@),
            questions: match inner.field("questions"@) {
                Some(JsonTree::Array(items)) => questions_of(items),
                _ => seq![],
            },
        }
    } else if key == "Status"@ {
        match inner.text() {
            Some(s) => ChunkModel::Status(s),
            None => ChunkModel::Unknown,
        }
    } else if key == "Error"@ {
        match inner.text() {
            Some(s) => ChunkModel::Error(s),
            None => ChunkModel::Unknown,
        }
    } else {
        ChunkModel::Unknown
    }
}

/// The piece of output that a value describes: the text `Done`, or an object
/// whose first entry names and holds it.
pub open spec fn chunk_of(t: JsonTree) -> ChunkModel {
    match t {
        JsonTree::Text(s) => if s == "Done"@ {
            ChunkModel::Done
        } else {
            ChunkModel::Unknown
        },
        JsonTree::Object(entries) => if entries.len() > 0 {
            tagged_chunk(entries[0].0, entries[0].1)
        } else {
            ChunkModel::Unknown
        },
        _ => ChunkModel::Unknown,
    }
}

/// The event that an object describes.
pub open spec fn event_of(t: JsonTree) -> EventModel {
    let name = t.text_or_empty("type"@);
    if name == "Created"@ {
        EventModel::Created {
            session_id: t.text_or_empty("session_id"@),
            session_name: t.text_or_empty("session_name"@),
        }
    } else if name == "Chunk"@ {
        EventModel::Chunk {
            session_id: t.text_or_empty("session_id"@),
            chunk: chunk_of(
                match t.field("chunk"@) {
                    Some(c) => c,
                    None => JsonTree::Null,
                },
            ),
        }
    } else {
        EventModel::Unknown(t)
    }
}

// ---------------------------------------------------------------------------
// Reading
// ---------------------------------------------------------------------------

/// Reads a tool's result.
pub fn parse_tool_result(val: Option<&Json>) -> (r: Option<ToolResultWire>)
    ensures
        match (r, val) {
            (Some(x), Some(j)) => result_of(Some(j@)) == Some(x@),
            (None, None) => true,
            _ => false,
        },
{
    let val = match val {
        Some(v) => v,
        None => {
            return None;
        },
    };
    let is_error = val.flag("is_error");
    let mut out = String::new();
    assert(out@ =~= seq![]);
    if let Some(c) = val.get("content") {
        if c.get("Text").is_some() {
            out = c.text_or_empty("Text");
        } else if c.get("Image").is_some() {
            out = "[Image]".to_owned();
        } else if let Some(d) = c.get("Document") {
            if let Some(s) = d.get_text("description") {
                out = text::cat3("[Document: ", s.as_str(), "]");
            }
        }
    }
    Some(ToolResultWire { text: out, is_error, content: None })
}

/// Reads an answer that a question offers.
fn parse_option(val: &Json) -> (r: Option<QuestionOptionWire>)
    ensures
        match r {
            Some(o) => option_of(val@) == Some(o@),
            None => option_of(val@) is None,
        },
{
    match (val.get_text("label"), val.get_text("description")) {
        (Some(label), Some(description)) => Some(QuestionOptionWire { label, description }),
        _ => None,
    }
}

/// Reads a question to the user.
pub fn parse_user_question(val: &Json) -> (r: Option<UserQuestionWire>)
    ensures
        match r {
            Some(q) => question_of(val@) == Some(q@),
            None => question_of(val@) is None,
        },
{
    let (question, header) = match (val.get_text("question"), val.get_text("header")) {
        (Some(q), Some(h)) => (q, h),
        _ => {
            return None;
        },
    };
    let items = match val.get("options") {
        Some(o) => match o.as_array() {
            Some(v) => v,
            None => {
                return None;
            },
        },
        None => {
            return None;
        },
    };
    let mut options: Vec<QuestionOptionWire> = Vec::new();
    let ghost all = json::trees(items@);
    let mut i: usize = 0;
    assert(Seq::new(options@.len(), |j: int| options@[j]@) =~= options_of(all.take(0)));
    while i < items.len()
        invariant
            i <= items.len(),
            all == json::trees(items@),
            Seq::new(options@.len(), |j: int| options@[j]@) == options_of(all.take(i as int)),
        decreases items.len() - i,
    {
        let ghost before = Seq::new(options@.len(), |j: int| options@[j]@);
        proof {
            assert(all.take(i + 1).drop_last() =~= all.take(i as int));
            assert(all.take(i + 1).last() == items@[i as int]@);
        }
        if let Some(o) = parse_option(&items[i]) {
            options.push(o);
            assert(Seq::new(options@.len(), |j: int| options@[j]@) =~= before.push(o@));
        }
        i += 1;
    }
    assert(all.take(i as int) =~= all);
    Some(UserQuestionWire { question, header, options, multi_select: val.flag("multi_select") })
}

/// Reads the questions among some values.
fn parse_questions(items: &Vec<Json>) -> (r: Vec<UserQuestionWire>)
    ensures
        Seq::new(r@.len(), |j: int| r@[j]@) == questions_of(json::trees(items@)),
{
    let mut r: Vec<UserQuestionWire> = Vec::new();
    let ghost all = json::trees(items@);
    let mut i: usize = 0;
    assert(Seq::new(r@.len(), |j: int| r@[j]@) =~= questions_of(all.take(0)));
    while i < items.len()
        invariant
            i <= items.len(),
            all == json::trees(items@),
            Seq::new(r@.len(), |j: int| r@[j]@) == questions_of(all.take(i as int)),
        decreases items.len() - i,
    {
        let ghost before = Seq::new(r@.len(), |j: int| r@[j]@);
        proof {
            assert(all.take(i + 1).drop_last() =~= all.take(i as int));
            assert(all.take(i + 1).last() == items@[i as int]@);
        }
        if let Some(q) = parse_user_question(&items[i]) {
            r.push(q);
            assert(Seq::new(r@.len(), |j: int| r@[j]@) =~= before.push(q@));
        }
        i += 1;
    }
    assert(all.take(i as int) =~= all);
    r
}

/// Reads a piece of output from its name and its value.
fn parse_tagged(key: &str, inner: &Json) -> (r: OutputChunk)
    ensures
        r@ == tagged_chunk(key@, inner@),
{
    if text::same(key, "TextDelta") {
        match inner.as_text() {
            Some(s) => OutputChunk::TextDelta(s.clone()),
            None => OutputChunk::Unknown,
        }
    } else if text::same(key, "TextComplete") {
        match inner.as_text() {
            Some(s) => OutputChunk::TextComplete(s.clone()),
            None => OutputChunk::Unknown,
        }
    } else if text::same(key, "ThinkingDelta") {
        match inner.as_text() {
            Some(s) => OutputChunk::ThinkingDelta(s.clone()),
            None => OutputChunk::Unknown,
        }
    } else if text::same(key, "ThinkingComplete") {
        match inner.as_text() {
            Some(s) => OutputChunk::ThinkingComplete(s.clone()),
            None => OutputChunk::Unknown,
        }
    } else if text::same(key, "ToolStart") {
        let input = match inner.get("input") {
            Some(j) => j.copy(),
            None => Json::Null,
        };
        OutputChunk::ToolStart {
            id: inner.text_or_empty("id"),
            name: inner.text_or_empty("name"),
            input,
        }
    } else if text::same(key, "ToolProgress") {
        OutputChunk::ToolProgress {
            id: inner.text_or_empty("id"),
            output: inner.text_or_empty("output"),
        }
    } else if text::same(key, "ToolEnd") {
        let id = inner.text_or_empty("id");
        let result = match parse_tool_result(inner.get("result")) {
            Some(x) => x,
            None => {
                let empty = String::new();
                assert(empty@ =~= seq![]);
                ToolResultWire { text: empty, is_error: false, content: None }
            },
        };
        OutputChunk::ToolEnd { id, result }
    } else if text::same(key, "AskUserQuestion") {
        let request_id = inner.text_or_empty("request_id");
        let questions = match inner.get("questions") {
            Some(a) => match a.as_array() {
                Some(items) => parse_questions(items),
                None => Vec::new(),
            },
            None => Vec::new(),
        };
        let r = OutputChunk::AskUserQuestion { request_id, questions };
        assert(r@->questions =~= tagged_chunk(key@, inner@)->questions);
        r
    } else if text::same(key, "Status") {
        match inner.as_text() {
            Some(s) => OutputChunk::Status(s.clone()),
            None => OutputChunk::Unknown,
        }
    } else if text::same(key, "Error") {
        match inner.as_text() {
            Some(s) => OutputChunk::Error(s.clone()),
            None => OutputChunk::Unknown,
        }
    } else {
        OutputChunk::Unknown
    }
}

/// Reads a piece of output.
pub fn parse_chunk(val: &Json) -> (r: OutputChunk)
    ensures
        r@ == chunk_of(val@),
{
    match val {
        Json::Text(s) => if text::same(s.as_str(), "Done") {
            OutputChunk::Done
        } else {
            OutputChunk::Unknown
        },
        Json::Object(entries) => {
            if entries.len() == 0 {
                return OutputChunk::Unknown;
            }
            assert(val@->Object_0[0] == (entries@[0].0@, entries@[0].1@));
            parse_tagged(entries[0].0.as_str(), &entries[0].1)
        },
        _ => OutputChunk::Unknown,
    }
}

/// Why a line is no event.
pub enum EventError {
    /// The line is no JSON value.
    NotJson(JsonError),
    /// The line is a JSON value but no object.
    NotAnObject,
}

impl ServerEvent {
    /// Reads an event from a line of JSON.
    pub fn from_json_line(line: &str) -> (r: Result<ServerEvent, EventError>)
        ensures
            match (json::read(line@), r) {
                (None, Err(EventError::NotJson(_))) => true,
                (Some(JsonTree::Object(entries)), Ok(ev)) => ev@ == event_of(
                    JsonTree::Object(entries),
                ),
                (Some(t), Err(EventError::NotAnObject)) => !(t is Object),
                _ => false,
            },
    {
        match json::parse(line) {
            Ok(val) => ServerEvent::from_json(val),
            Err(e) => Err(EventError::NotJson(e)),
        }
    }

    /// Reads an event from a JSON value.
    pub fn from_json(val: Json) -> (r: Result<ServerEvent, EventError>)
        ensures
            match r {
                Ok(ev) => val@ is Object && ev@ == event_of(val@),
                Err(EventError::NotAnObject) => !(val@ is Object),
                Err(EventError::NotJson(_)) => false,
            },
    {
        if !matches!(val, Json::Object(_)) {
            return Err(EventError::NotAnObject);
        }
        let name = val.text_or_empty("type");
        if text::same(name.as_str(), "Created") {
            Ok(
                ServerEvent::Created {
                    session_id: val.text_or_empty("session_id"),
                    session_name: val.text_or_empty("session_name"),
                },
            )
        } else if text::same(name.as_str(), "Chunk") {
            let session_id = val.text_or_empty("session_id");
            let chunk = match val.get("chunk") {
                Some(c) => parse_chunk(c),
                None => parse_chunk(&Json::Null),
            };
            Ok(ServerEvent::Chunk { session_id, chunk })
        } else {
            Ok(ServerEvent::Unknown(val))
        }
    }

    /// Reads the event of a line from the socket. A blank line has none.
    pub fn from_socket_line(line: &str) -> (r: Option<Result<ServerEvent, EventError>>)
        ensures
            r is None == (text::trimmed(line@).len() == 0),
            r matches Some(x) ==> match (json::read(text::trimmed(line@)), x) {
                (None, Err(EventError::NotJson(_))) => true,
                (Some(JsonTree::Object(entries)), Ok(ev)) => ev@ == event_of(
                    JsonTree::Object(entries),
                ),
                (Some(t), Err(EventError::NotAnObject)) => !(t is Object),
                _ => false,
            },
    {
        let line = text::trim(line);
        if line.as_str().is_empty() {
            None
        } else {
            Some(ServerEvent::from_json_line(line.as_str()))
        }
    }
}

// ---------------------------------------------------------------------------
// Requests
// ---------------------------------------------------------------------------

/// How a session is run.
#[derive(Clone, Copy, Debug, PartialEq, Eq, Structural)]
pub struct SessionConfig {
    pub stream: bool,
    pub think: bool,
    pub no_cache: bool,
}

impl Default for SessionConfig {
    fn default() -> (r: SessionConfig)
        ensures
            r == (SessionConfig { stream: true, think: false, no_cache: false }),
    {
        SessionConfig { stream: true, think: false, no_cache: false }
    }
}

/// The socket of the daemon: the one that the environment names, or else the
/// usual one.
pub fn socket_path(named: Option<String>) -> (r: String)
    ensures
        r@ == match named {
            Some(s) => s@,
            None => "/tmp/omega-loop.sock"@,
        },
{
    match named {
        Some(s) => s,
        None => "/tmp/omega-loop.sock".to_owned(),
    }
}

/// The line that carries a value: its compact text and a line feed.
pub fn request_line(value: &Json) -> (r: String)
    ensures
        r@ == json::printed(json::settled(value@)).push('\n'),
        json::numberless(json::settled(value@), 100) ==> json::read(
            json::printed(json::settled(value@)),
        ) == Some(json::settled(value@)),
{
    let mut r = value.to_text();
    r.push('\n');
    r
}

/// What a request to run a session says.
pub open spec fn run_tree(session_id: Seq<char>, content: Seq<char>, config: SessionConfig) -> JsonTree {
    JsonTree::Object(
        seq![
            ("type"@, JsonTree::Text("run"@)),
            ("session_id"@, JsonTree::Text(session_id)),
            ("content"@, JsonTree::Text(content)),
            ("config"@, config_tree(config)),
        ],
    )
}

/// What the configuration of a session says.
pub open spec fn config_tree(config: SessionConfig) -> JsonTree {
    JsonTree::Object(
        seq![
            ("stream"@, JsonTree::Bool(config.stream)),
            ("think"@, JsonTree::Bool(config.think)),
            ("no_cache"@, JsonTree::Bool(config.no_cache)),
        ],
    )
}

/// The request to run a session.
pub fn run_request(session_id: &str, content: &str, config: &SessionConfig) -> (r: Json)
    ensures
        r@ == run_tree(session_id@, content@, *config),
{
    let c = json::object(
        vec![
            json::entry("stream", Json::Bool(config.stream)),
            json::entry("think", Json::Bool(config.think)),
            json::entry("no_cache", Json::Bool(config.no_cache)),
        ],
    );
    assert(c@->Object_0 =~= config_tree(*config)->Object_0);
    let r = json::object(
        vec![
            json::entry("type", json::text_value("run")),
            json::entry("session_id", json::text_value(session_id)),
            json::entry("content", json::text_value(content)),
            json::entry("config", c),
        ],
    );
    assert(r@->Object_0 =~= run_tree(session_id@, content@, *config)->Object_0);
    r
}

/// The line that asks the daemon to run a session on a message.
pub fn send_run(session_id: &str, content: &str, config: &SessionConfig) -> (r: String)
    ensures
        r@ == json::printed(json::settled(run_tree(session_id@, content@, *config))).push('\n'),
        json::read(json::printed(json::settled(run_tree(session_id@, content@, *config)))) == Some(
            json::settled(run_tree(session_id@, content@, *config)),
        ),
{
    let req = run_request(session_id, content, config);
    proof {
        run_tree_is_numberless(session_id@, content@, *config);
        json::numberless_settled(req@, 100);
    }
    request_line(&req)
}

/// A request to run a session holds no number.
proof fn run_tree_is_numberless(session_id: Seq<char>, content: Seq<char>, config: SessionConfig)
    ensures
        json::numberless(run_tree(session_id, content, config), 100),
{
    let v = run_tree(session_id, content, config)->Object_0;
    let c = config_tree(config)->Object_0;
    assert forall|i: int| 0 <= i < c.len() implies json::numberless((#[trigger] c[i]).1, 98) by {}
    assert(json::numberless(config_tree(config), 99));
    assert forall|i: int| 0 <= i < v.len() implies json::numberless((#[trigger] v[i]).1, 99) by {}
}

/// What the daemon reads off a request to run a session is what went into it:
/// the session, the message and the three settings.
pub proof fn run_request_reads_back(
    session_id: Seq<char>,
    content: Seq<char>,
    config: SessionConfig,
)
    ensures
        json::settled(run_tree(session_id, content, config)).text_field("type"@) == Some("run"@),
        json::settled(run_tree(session_id, content, config)).text_field("session_id"@) == Some(
            session_id,
        ),
        json::settled(run_tree(session_id, content, config)).text_field("content"@) == Some(
            content,
        ),
        json::settled(run_tree(session_id, content, config)).field("config"@) matches Some(c)
            && c.flag("stream"@) == config.stream && c.flag("think"@) == config.think && c.flag(
            "no_cache"@,
        ) == config.no_cache,
{
    reveal_strlit("type");
    reveal_strlit("session_id");
    reveal_strlit("content");
    reveal_strlit("config");
    reveal_strlit("stream");
    reveal_strlit("think");
    reveal_strlit("no_cache");
    assert("config"@[2] == 'n' && "stream"@[2] == 'r');
    let v = run_tree(session_id, content, config)->Object_0;
    let c = config_tree(config)->Object_0;
    let v3 = v.drop_last();
    let v2 = v3.drop_last();
    let v1 = v2.drop_last();
    assert("type"@.len() == 4 && "session_id"@.len() == 10 && "content"@.len() == 7
        && "config"@.len() == 6);
    json::lookup_settled(v, "type"@);
    json::lookup_settled(v3, "type"@);
    json::lookup_settled(v2, "type"@);
    json::lookup_settled(v1, "type"@);
    json::lookup_settled(v, "session_id"@);
    json::lookup_settled(v3, "session_id"@);
    json::lookup_settled(v2, "session_id"@);
    json::lookup_settled(v, "content"@);
    json::lookup_settled(v3, "content"@);
    json::lookup_settled(v, "config"@);
    let c2 = c.drop_last();
    let c1 = c2.drop_last();
    assert("stream"@.len() == 6 && "think"@.len() == 5 && "no_cache"@.len() == 8);
    json::lookup_settled(c, "stream"@);
    json::lookup_settled(c2, "stream"@);
    json::lookup_settled(c1, "stream"@);
    json::lookup_settled(c, "think"@);
    json::lookup_settled(c2, "think"@);
    json::lookup_settled(c, "no_cache"@);
}

/// The texts of a list of answers.
pub open spec fn answer_entries(answers: Seq<(String, String)>) -> Seq<(Seq<char>, JsonTree)> {
    Seq::new(answers.len(), |i: int| (answers[i].0@, JsonTree::Text(answers[i].1@)))
}

/// What the answer to a question says.
pub open spec fn ask_tree(
    session_id: Seq<char>,
    request_id: Seq<char>,
    answers: Seq<(String, String)>,
) -> JsonTree {
    JsonTree::Object(
        seq![
            ("type"@, JsonTree::Text("ask_response"@)),
            ("session_id"@, JsonTree::Text(session_id)),
            ("request_id"@, JsonTree::Text(request_id)),
            ("answers"@, JsonTree::Object(answer_entries(answers))),
        ],
    )
}

/// The line that hands the daemon the user's answers, each under its question.
pub fn send_ask_response(
    session_id: &str,
    request_id: &str,
    answers: &Vec<(String, String)>,
) -> (r: String)
    ensures
        r@ == json::printed(json::settled(ask_tree(session_id@, request_id@, answers@))).push(
            '\n',
        ),
        json::read(json::printed(json::settled(ask_tree(session_id@, request_id@, answers@))))
            == Some(json::settled(ask_tree(session_id@, request_id@, answers@))),
{
    let mut entries: Vec<(String, Json)> = Vec::new();
    let mut i: usize = 0;
    let ghost all = answer_entries(answers@);
    while i < answers.len()
        invariant
            i <= answers.len(),
            all == answer_entries(answers@),
            json::entry_views(entries@) == all.take(i as int),
        decreases answers.len() - i,
    {
        let ghost before = json::entry_views(entries@);
        entries.push(
            json::entry(answers[i].0.as_str(), json::text_value(answers[i].1.as_str())),
        );
        i += 1;
        assert(json::entry_views(entries@) =~= before.push(all[i - 1]));
        assert(before.push(all[i - 1]) =~= all.take(i as int));
    }
    assert(all.take(i as int) =~= all);
    let req = json::object(
        vec![
            json::entry("type", json::text_value("ask_response")),
            json::entry("session_id", json::text_value(session_id)),
            json::entry("request_id", json::text_value(request_id)),
            json::entry("answers", json::object(entries)),
        ],
    );
    assert(req@->Object_0 =~= ask_tree(session_id@, request_id@, answers@)->Object_0);
    proof {
        let v = req@->Object_0;
        assert forall|j: int| 0 <= j < all.len() implies json::numberless(
            (#[trigger] all[j]).1,
            98,
        ) by {}
        assert(json::numberless(JsonTree::Object(all), 99));
        assert forall|j: int| 0 <= j < v.len() implies json::numberless((#[trigger] v[j]).1, 99) by {}
        json::numberless_settled(req@, 100);
    }
    request_line(&req)
}

/// The answer that stands last under a header; nothing where none does.
pub open spec fn last_answer(answers: Seq<(String, String)>, header: Seq<char>) -> Option<Seq<char>>
    decreases answers.len(),
{
    if answers.len() == 0 {
        None
    } else if answers.last().0@ == header {
        Some(answers.last().1@)
    } else {
        last_answer(answers.drop_last(), header)
    }
}

/// Under a header of settled answers stands the last answer to it.
proof fn answers_settle(answers: Seq<(String, String)>, header: Seq<char>)
    ensures
        json::lookup(json::settled_entries(answer_entries(answers)), header) == match last_answer(
            answers,
            header,
        ) {
            Some(s) => Some(JsonTree::Text(s)),
            None => None,
        },
    decreases answers.len(),
{
    let v = answer_entries(answers);
    json::lookup_settled(v, header);
    if answers.len() > 0 {
        assert(v.drop_last() =~= answer_entries(answers.drop_last()));
        answers_settle(answers.drop_last(), header);
    }
}

/// What the daemon reads off the answers to questions is what went into them: the
/// session, the request, and under each header the answer that was given last.
pub proof fn ask_response_reads_back(
    session_id: Seq<char>,
    request_id: Seq<char>,
    answers: Seq<(String, String)>,
    header: Seq<char>,
)
    ensures
        ({
            let t = json::settled(ask_tree(session_id, request_id, answers));
            &&& t.text_field("type"@) == Some("ask_response"@)
            &&& t.text_field("session_id"@) == Some(session_id)
            &&& t.text_field("request_id"@) == Some(request_id)
            &&& t.field("answers"@) matches Some(a) && a.text_field(header) == last_answer(
                answers,
                header,
            )
        }),
{
    reveal_strlit("type");
    reveal_strlit("session_id");
    reveal_strlit("request_id");
    reveal_strlit("answers");
    assert("type"@.len() == 4 && "session_id"@.len() == 10 && "request_id"@.len() == 10
        && "answers"@.len() == 7);
    assert("session_id"@[0] == 's' && "request_id"@[0] == 'r');
    let v = ask_tree(session_id, request_id, answers)->Object_0;
    let v3 = v.drop_last();
    let v2 = v3.drop_last();
    let v1 = v2.drop_last();
    json::lookup_settled(v, "type"@);
    json::lookup_settled(v3, "type"@);
    json::lookup_settled(v2, "type"@);
    json::lookup_settled(v1, "type"@);
    json::lookup_settled(v, "session_id"@);
    json::lookup_settled(v3, "session_id"@);
    json::lookup_settled(v2, "session_id"@);
    json::lookup_settled(v, "request_id"@);
    json::lookup_settled(v3, "request_id"@);
    json::lookup_settled(v, "answers"@);
    answers_settle(answers, header);
}

/// Each kind of text is read off the object that names it.
pub proof fn pieces_of_text_read_back(s: Seq<char>)
    ensures
        chunk_of(JsonTree::Object(seq![("TextDelta"@, JsonTree::Text(s))]))
            == ChunkModel::TextDelta(s),
        chunk_of(JsonTree::Object(seq![("TextComplete"@, JsonTree::Text(s))]))
            == ChunkModel::TextComplete(s),
        chunk_of(JsonTree::Object(seq![("ThinkingDelta"@, JsonTree::Text(s))]))
            == ChunkModel::ThinkingDelta(s),
        chunk_of(JsonTree::Object(seq![("ThinkingComplete"@, JsonTree::Text(s))]))
            == ChunkModel::ThinkingComplete(s),
        chunk_of(JsonTree::Object(seq![("Status"@, JsonTree::Text(s))])) == ChunkModel::Status(s),
        chunk_of(JsonTree::Object(seq![("Error"@, JsonTree::Text(s))])) == ChunkModel::Error(s),
{
    reveal_strlit("TextDelta");
    reveal_strlit("TextComplete");
    reveal_strlit("ThinkingDelta");
    reveal_strlit("ThinkingComplete");
    reveal_strlit("ToolStart");
    reveal_strlit("ToolProgress");
    reveal_strlit("ToolEnd");
    reveal_strlit("AskUserQuestion");
    reveal_strlit("Status");
    reveal_strlit("Error");
    assert("TextDelta"@.len() == 9 && "TextComplete"@.len() == 12 && "ThinkingDelta"@.len() == 13
        && "ThinkingComplete"@.len() == 16 && "ToolStart"@.len() == 9 && "ToolProgress"@.len()
        == 12 && "ToolEnd"@.len() == 7 && "AskUserQuestion"@.len() == 15 && "Status"@.len() == 6
        && "Error"@.len() == 5);
    assert("TextDelta"@[1] == 'e' && "ToolStart"@[1] == 'o');
    assert("TextComplete"@[1] == 'e' && "ToolProgress"@[1] == 'o');
}

/// An event of an unknown type is handed on whole.
pub proof fn unknown_events_are_kept(t: JsonTree)
    requires
        t.text_or_empty("type"@) != "Created"@,
        t.text_or_empty("type"@) != "Chunk"@,
    ensures
        event_of(t) == EventModel::Unknown(t),
{
}

/// The start, the progress and the end of a tool call, and questions to the user, are read
/// off the objects that name them, with what their members say.
pub proof fn tool_calls_read_back(
    inner: JsonTree,
    id: Seq<char>,
    name: Seq<char>,
    input: JsonTree,
    output: Seq<char>,
    result: JsonTree,
)
    requires
        inner.text_field("id"@) == Some(id),
        inner.text_field("name"@) == Some(name),
        inner.field("input"@) == Some(input),
        inner.text_field("output"@) == Some(output),
        inner.field("result"@) == Some(result),
    ensures
        chunk_of(JsonTree::Object(seq![("ToolStart"@, inner)])) == (ChunkModel::ToolStart {
            id,
            name,
            input,
        }),
        chunk_of(JsonTree::Object(seq![("ToolProgress"@, inner)])) == (ChunkModel::ToolProgress {
            id,
            output,
        }),
        chunk_of(JsonTree::Object(seq![("ToolEnd"@, inner)])) matches ChunkModel::ToolEnd {
            id: i,
            result: r,
        } && i == id && r.text == result_text(result) && r.is_error == result.flag("is_error"@),
        chunk_of(JsonTree::Text("Done"@)) is Done,
{
    reveal_strlit("TextDelta");
    reveal_strlit("TextComplete");
    reveal_strlit("ThinkingDelta");
    reveal_strlit("ThinkingComplete");
    reveal_strlit("ToolStart");
    reveal_strlit("ToolProgress");
    reveal_strlit("ToolEnd");
    assert("TextDelta"@.len() == 9 && "TextComplete"@.len() == 12 && "ThinkingDelta"@.len() == 13
        && "ThinkingComplete"@.len() == 16 && "ToolStart"@.len() == 9 && "ToolProgress"@.len()
        == 12 && "ToolEnd"@.len() == 7);
    assert("TextDelta"@[1] == 'e' && "ToolStart"@[1] == 'o');
    assert("TextComplete"@[1] == 'e' && "ToolProgress"@[1] == 'o');
}

/// What a tool returned is read as text: a text as it is, an image and a document by a mark.
pub proof fn results_are_read(result: JsonTree, content: JsonTree, s: Seq<char>, d: JsonTree)
    requires
        result.field("content"@) == Some(content),
    ensures
        content.text_field("Text"@) == Some(s) ==> result_text(result) == s,
        content.field("Text"@) is None && content.field("Image"@) is Some ==> result_text(result)
            == "[Image]"@,
        content.field("Text"@) is None && content.field("Image"@) is None && content.field(
            "Document"@,
        ) == Some(d) && d.text_field("description"@) == Some(s) ==> result_text(result)
            == "[Document: "@ + s + "]"@,
{
}

/// A question is read with its answers, where it has all it needs; so are all questions of
/// a list, in their order.
pub proof fn questions_are_read(
    items: Seq<JsonTree>,
    t: JsonTree,
    question: Seq<char>,
    header: Seq<char>,
    options: Seq<JsonTree>,
    o: JsonTree,
    label: Seq<char>,
    description: Seq<char>,
)
    requires
        t.text_field("question"@) == Some(question),
        t.text_field("header"@) == Some(header),
        t.field("options"@) == Some(JsonTree::Array(options)),
        o.text_field("label"@) == Some(label),
        o.text_field("description"@) == Some(description),
    ensures
        questions_of(items.push(t)).len() == questions_of(items).len() + 1,
        questions_of(items.push(t)).drop_last() == questions_of(items),
        questions_of(items.push(t)).last().question == question,
        questions_of(items.push(t)).last().header == header,
        questions_of(items.push(t)).last().options == options_of(options),
        options_of(options.push(o)) == options_of(options).push(OptionModel { label, description }),
{
    assert(items.push(t).drop_last() =~= items);
    assert(options.push(o).drop_last() =~= options);
    assert(questions_of(items.push(t)).drop_last() =~= questions_of(items));
}

/// A session that was created, and a piece of output, are read off an event with the
/// session that they belong to.
pub proof fn sessions_are_read(t: JsonTree, id: Seq<char>, name: Seq<char>, c: JsonTree)
    requires
        t.text_field("session_id"@) == Some(id),
        t.text_field("session_name"@) == Some(name),
        t.field("chunk"@) == Some(c),
    ensures
        t.text_field("type"@) == Some("Created"@) ==> event_of(t) == (EventModel::Created {
            session_id: id,
            session_name: name,
        }),
        t.text_field("type"@) == Some("Chunk"@) ==> event_of(t) == (EventModel::Chunk {
            session_id: id,
            chunk: chunk_of(c),
        }),
{
    reveal_strlit("Created");
    reveal_strlit("Chunk");
    assert("Created"@.len() == 7 && "Chunk"@.len() == 5);
}

/// Questions that are asked read back with their name and, in order, what is asked; a question
/// says whether several answers may be chosen.
pub proof fn asked_questions_read_back(
    inner: JsonTree,
    id: Seq<char>,
    items: Seq<JsonTree>,
    t: JsonTree,
)
    requires
        inner.text_field("request_id"@) == Some(id),
        inner.field("questions"@) == Some(JsonTree::Array(items)),
    ensures
        chunk_of(JsonTree::Object(seq![("AskUserQuestion"@, inner)]))
            == (ChunkModel::AskUserQuestion { request_id: id, questions: questions_of(items) }),
        (question_of(t) matches Some(q) ==> q.multi_select == t.flag("multi_select"@)),
{
    reveal_strlit("TextDelta");
    reveal_strlit("TextComplete");
    reveal_strlit("ThinkingDelta");
    reveal_strlit("ThinkingComplete");
    reveal_strlit("ToolStart");
    reveal_strlit("ToolProgress");
    reveal_strlit("ToolEnd");
    reveal_strlit("AskUserQuestion");
    assert("TextDelta"@.len() == 9 && "TextComplete"@.len() == 12 && "ThinkingDelta"@.len() == 13
        && "ThinkingComplete"@.len() == 16 && "ToolStart"@.len() == 9 && "ToolProgress"@.len()
        == 12 && "ToolEnd"@.len() == 7 && "AskUserQuestion"@.len() == 15);
}

} // verus!
