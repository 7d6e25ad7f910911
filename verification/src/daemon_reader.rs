//! How the lines of the daemon are read as events of all kinds.

use vstd::prelude::*;

use crate::daemon_events::{OutputChunk, ServerEvent};
use crate::json;
use crate::json::{Json, JsonTree};
use crate::loop_client;
use crate::loop_client::{EventError, ResultModel, ToolResultWire};
use crate::text;

verus! {

/// What a piece of output of any kind says.
pub enum PieceModel {
    /// One of the kinds that every client knows.
    Common(loop_client::ChunkModel),
    /// A tool has done its work.
    ToolEnd { id: Seq<char>, name: Seq<char>, input: JsonTree, result: ResultModel },
    /// The user is asked whether a tool may be used.
    PermissionRequest {
        tool_name: Seq<char>,
        action: Seq<char>,
        input: Seq<char>,
        details: Option<Seq<char>>,
    },
    /// What an answer took.
    CacheTelemetry {
        input_tokens: u32,
        output_tokens: u32,
        cache_read_tokens: u32,
        cache_creation_tokens: u32,
    },
}

/// What an event of any kind says.
pub enum NewsModel {
    Chunk { session_id: Seq<char>, chunk: PieceModel },
    Created { session_id: Seq<char>, session_name: Seq<char> },
    SessionList { sessions: Seq<Seq<char>> },
    SessionResumed { session_id: Seq<char>, session_name: Seq<char> },
    ModelChanged { model: Seq<char> },
    SessionCompacted { session_id: Seq<char> },
    ModelList { models: Seq<Seq<char>> },
    SystemMsg(Seq<char>),
    Unknown(JsonTree),
}

impl View for OutputChunk {
    type V = PieceModel;

    open spec fn view(&self) -> PieceModel {
        match self {
            OutputChunk::TextDelta(s) => PieceModel::Common(loop_client::ChunkModel::TextDelta(s@)),
            OutputChunk::TextComplete(s) => PieceModel::Common(
                loop_client::ChunkModel::TextComplete(s@),
            ),
            OutputChunk::ThinkingDelta(s) => PieceModel::Common(
                loop_client::ChunkModel::ThinkingDelta(s@),
            ),
            OutputChunk::ThinkingComplete(s) => PieceModel::Common(
                loop_client::ChunkModel::ThinkingComplete(s@),
            ),
            OutputChunk::ToolStart { id, name, input } => PieceModel::Common(
                loop_client::ChunkModel::ToolStart { id: id@, name: name@, input: input@ },
            ),
            OutputChunk::ToolProgress { id, output } => PieceModel::Common(
                loop_client::ChunkModel::ToolProgress { id: id@, output: output@ },
            ),
            OutputChunk::ToolEnd { id, name, input, result } => PieceModel::ToolEnd {
                id: id@,
                name: name@,
                input: input@,
                result: result@,
            },
            OutputChunk::PermissionRequest { tool_name, action, input, details } => {
                PieceModel::PermissionRequest {
                    tool_name: tool_name@,
                    action: action@,
                    input: input@,
                    details: text::opt_view(*details),
                }
            },
            OutputChunk::Status(s) => PieceModel::Common(loop_client::ChunkModel::Status(s@)),
            OutputChunk::Error(s) => PieceModel::Common(loop_client::ChunkModel::Error(s@)),
            OutputChunk::Done => PieceModel::Common(loop_client::ChunkModel::Done),
            OutputChunk::CacheTelemetry {
                input_tokens,
                output_tokens,
                cache_read_tokens,
                cache_creation_tokens,
            } => PieceModel::CacheTelemetry {
                input_tokens: *input_tokens,
                output_tokens: *output_tokens,
                cache_read_tokens: *cache_read_tokens,
                cache_creation_tokens: *cache_creation_tokens,
            },
            OutputChunk::AskUserQuestion { request_id, questions } => PieceModel::Common(
                loop_client::ChunkModel::AskUserQuestion {
                    request_id: request_id@,
                    questions: Seq::new(questions@.len(), |i: int| questions@[i]@),
                },
            ),
            OutputChunk::Unknown => PieceModel::Common(loop_client::ChunkModel::Unknown),
        }
    }
}

impl View for ServerEvent {
    type V = NewsModel;

    open spec fn view(&self) -> NewsModel {
        match self {
            ServerEvent::Chunk { session_id, chunk } => NewsModel::Chunk {
                session_id: session_id@,
                chunk: chunk@,
            },
            ServerEvent::Created { session_id, session_name } => NewsModel::Created {
                session_id: session_id@,
                session_name: session_name@,
            },
            ServerEvent::SessionList { sessions } => NewsModel::SessionList {
                sessions: text::views(sessions@),
            },
            ServerEvent::SessionResumed { session_id, session_name } => NewsModel::SessionResumed {
                session_id: session_id@,
                session_name: session_name@,
            },
            ServerEvent::ModelChanged { model } => NewsModel::ModelChanged { model: model@ },
            ServerEvent::SessionCompacted { session_id } => NewsModel::SessionCompacted {
                session_id: session_id@,
            },
            ServerEvent::ModelList { models } => NewsModel::ModelList {
                models: text::views(models@),
            },
            ServerEvent::SystemMsg(s) => NewsModel::SystemMsg(s@),
            ServerEvent::Unknown(j) => NewsModel::Unknown(j@),
        }
    }
}

// ---------------------------------------------------------------------------
// What the JSON says
// ---------------------------------------------------------------------------

/// The member under a key, null where there is none.
pub open spec fn value_at(t: JsonTree, key: Seq<char>) -> JsonTree {
    match t.field(key) {
        Some(v) => v,
        None => JsonTree::Null,
    }
}

/// The figure under a key, where it is one of thirty-two bits.
pub open spec fn figure_at(t: JsonTree, key: Seq<char>) -> Option<u32> {
    match t.whole_field(key) {
        Some(n) => if n <= u32::MAX {
            Some(n as u32)
        } else {
            None
        },
        None => None,
    }
}

/// The texts among some values, in order.
pub open spec fn texts_of(items: Seq<JsonTree>) -> Seq<Seq<char>>
    decreases items.len(),
{
    if items.len() == 0 {
        seq![]
    } else {
        match items.last().text() {
            Some(s) => texts_of(items.drop_last()).push(s),
            None => texts_of(items.drop_last()),
        }
    }
}

/// The texts in the list under a key.
pub open spec fn texts_at(t: JsonTree, key: Seq<char>) -> Seq<Seq<char>> {
    match t.field(key) {
        Some(JsonTree::Array(items)) => texts_of(items),
        _ => seq![],
    }
}

/// The piece of output that a value describes.
pub open spec fn piece_of(t: JsonTree) -> PieceModel {
    match t {
        JsonTree::Object(entries) => if entries.len() > 0 {
            let (key, inner) = entries[0];
            if key == "ToolEnd"@ {
                PieceModel::ToolEnd {
                    id: inner.text_or_empty("id"@),
                    name: inner.text_or_empty("name"@),
                    input: value_at(inner, "input"@),
                    result: match loop_client::result_of(inner.field("result"@)) {
                        Some(r) => r,
                        None => ResultModel { text: seq![], is_error: false, content: None },
                    },
                }
            } else if key == "PermissionRequest"@ {
                PieceModel::PermissionRequest {
                    tool_name: inner.text_or_empty("tool_name"@),
                    action: inner.text_or_empty("action"@),
                    input: inner.text_or_empty("input"@),
                    details: inner.text_field("details"@),
                }
            } else if key == "CacheTelemetry"@ {
                match (
                    figure_at(inner, "input_tokens"@),
                    figure_at(inner, "output_tokens"@),
                    figure_at(inner, "cache_read_tokens"@),
                    figure_at(inner, "cache_creation_tokens"@),
                ) {
                    (Some(i), Some(o), Some(r), Some(c)) => PieceModel::CacheTelemetry {
                        input_tokens: i,
                        output_tokens: o,
                        cache_read_tokens: r,
                        cache_creation_tokens: c,
                    },
                    _ => PieceModel::Common(loop_client::ChunkModel::Unknown),
                }
            } else {
                PieceModel::Common(loop_client::chunk_of(t))
            }
        } else {
            PieceModel::Common(loop_client::chunk_of(t))
        },
        _ => PieceModel::Common(loop_client::chunk_of(t)),
    }
}

/// The event that an object describes.
pub open spec fn news_of(t: JsonTree) -> NewsModel {
    let name = t.text_or_empty("type"@);
    let session_id = t.text_or_empty("session_id"@);
    let session_name = t.text_or_empty("session_name"@);
    if name == "Created"@ {
        NewsModel::Created { session_id, session_name }
    } else if name == "Chunk"@ {
        NewsModel::Chunk { session_id, chunk: piece_of(value_at(t, "chunk"@)) }
    } else if name == "SessionList"@ {
        NewsModel::SessionList { sessions: texts_at(t, "sessions"@) }
    } else if name == "SessionResumed"@ {
        NewsModel::SessionResumed { session_id, session_name }
    } else if name == "ModelChanged"@ {
        NewsModel::ModelChanged { model: t.text_or_empty("model"@) }
    } else if name == "SessionCompacted"@ {
        NewsModel::SessionCompacted { session_id }
    } else if name == "ModelList"@ {
        NewsModel::ModelList { models: texts_at(t, "models"@) }
    } else if name == "SystemMsg"@ {
        NewsModel::SystemMsg(t.text_or_empty("message"@))
    } else {
        NewsModel::Unknown(t)
    }
}

// ---------------------------------------------------------------------------
// Reading
// ---------------------------------------------------------------------------

fn value_under(v: &Json, key: &str) -> (r: Json)
    ensures
        r@ == value_at(v@, key@),
{
    match v.get(key) {
        Some(j) => j.copy(),
        None => Json::Null,
    }
}

fn figure_under(v: &Json, key: &str) -> (r: Option<u32>)
    ensures
        r == figure_at(v@, key@),
{
    match v.get_whole(key) {
        Some(n) => if n <= 0xffff_ffff {
            Some(n as u32)
        } else {
            None
        },
        None => None,
    }
}

fn texts_under(v: &Json, key: &str) -> (r: Vec<String>)
    ensures
        text::views(r@) == texts_at(v@, key@),
{
    let mut r: Vec<String> = Vec::new();
    assert(text::views(r@) =~= seq![]);
    let items = match v.get(key) {
        Some(a) => match a.as_array() {
            Some(items) => items,
            None => return r,
        },
        None => return r,
    };
    let ghost all = json::trees(items@);
    let mut i: usize = 0;
    assert(text::views(r@) =~= texts_of(all.take(0)));
    while i < items.len()
        invariant
            i <= items.len(),
            all == json::trees(items@),
            text::views(r@) == texts_of(all.take(i as int)),
        decreases items.len() - i,
    {
        let ghost before = text::views(r@);
        proof {
            assert(all.take(i + 1).drop_last() =~= all.take(i as int));
            assert(all.take(i + 1).last() == items@[i as int]@);
        }
        if let Some(s) = items[i].as_text() {
            r.push(s.clone());
            assert(text::views(r@) =~= before.push(s@));
        }
        i += 1;
    }
    assert(all.take(i as int) =~= all);
    r
}

/// Takes over a piece of output of a kind that every client knows, but for the end of a
/// tool, of which such a client does not know enough.
fn common(c: loop_client::OutputChunk) -> (r: OutputChunk)
    requires
        !(c is ToolEnd),
    ensures
        r@ == PieceModel::Common(c@),
{
    match c {
        loop_client::OutputChunk::TextDelta(s) => OutputChunk::TextDelta(s),
        loop_client::OutputChunk::TextComplete(s) => OutputChunk::TextComplete(s),
        loop_client::OutputChunk::ThinkingDelta(s) => OutputChunk::ThinkingDelta(s),
        loop_client::OutputChunk::ThinkingComplete(s) => OutputChunk::ThinkingComplete(s),
        loop_client::OutputChunk::ToolStart { id, name, input } => OutputChunk::ToolStart {
            id,
            name,
            input,
        },
        loop_client::OutputChunk::ToolProgress { id, output } => OutputChunk::ToolProgress {
            id,
            output,
        },
        loop_client::OutputChunk::AskUserQuestion { request_id, questions } => {
            OutputChunk::AskUserQuestion { request_id, questions }
        },
        loop_client::OutputChunk::Status(s) => OutputChunk::Status(s),
        loop_client::OutputChunk::Error(s) => OutputChunk::Error(s),
        loop_client::OutputChunk::Done => OutputChunk::Done,
        _ => OutputChunk::Unknown,
    }
}

/// Reads a piece of output of any kind.
pub fn parse_piece(val: &Json) -> (r: OutputChunk)
    ensures
        r@ == piece_of(val@),
{
    if let Json::Object(entries) = val {
        if entries.len() > 0 {
            assert(val@->Object_0[0] == (entries@[0].0@, entries@[0].1@));
            let key = entries[0].0.as_str();
            let inner = &entries[0].1;
            if text::same(key, "ToolEnd") {
                let result = match loop_client::parse_tool_result(inner.get("result")) {
                    Some(x) => x,
                    None => {
                        let empty = String::new();
                        assert(empty@ =~= seq![]);
                        ToolResultWire { text: empty, is_error: false, content: None }
                    },
                };
                return OutputChunk::ToolEnd {
                    id: inner.text_or_empty("id"),
                    name: inner.text_or_empty("name"),
                    input: value_under(inner, "input"),
                    result,
                };
            }
            if text::same(key, "PermissionRequest") {
                return OutputChunk::PermissionRequest {
                    tool_name: inner.text_or_empty("tool_name"),
                    action: inner.text_or_empty("action"),
                    input: inner.text_or_empty("input"),
                    details: inner.get_text("details"),
                };
            }
            if text::same(key, "CacheTelemetry") {
                return match (
                    figure_under(inner, "input_tokens"),
                    figure_under(inner, "output_tokens"),
                    figure_under(inner, "cache_read_tokens"),
                    figure_under(inner, "cache_creation_tokens"),
                ) {
                    (Some(i), Some(o), Some(r), Some(c)) => OutputChunk::CacheTelemetry {
                        input_tokens: i,
                        output_tokens: o,
                        cache_read_tokens: r,
                        cache_creation_tokens: c,
                    },
                    _ => OutputChunk::Unknown,
                };
            }
        }
    }
    common(loop_client::parse_chunk(val))
}

impl ServerEvent {
    /// Reads an event of any kind from a JSON value.
    pub fn from_json(val: Json) -> (r: Result<ServerEvent, EventError>)
        ensures
            match r {
                Ok(ev) => val@ is Object && ev@ == news_of(val@),
                Err(EventError::NotAnObject) => !(val@ is Object),
                Err(EventError::NotJson(_)) => false,
            },
    {
        if !matches!(val, Json::Object(_)) {
            return Err(EventError::NotAnObject);
        }
        let name = val.text_or_empty("type");
        let name = name.as_str();
        let session_id = val.text_or_empty("session_id");
        let session_name = val.text_or_empty("session_name");
        if text::same(name, "Created") {
            Ok(ServerEvent::Created { session_id, session_name })
        } else if text::same(name, "Chunk") {
            let chunk = value_under(&val, "chunk");
            Ok(ServerEvent::Chunk { session_id, chunk: parse_piece(&chunk) })
        } else if text::same(name, "SessionList") {
            Ok(ServerEvent::SessionList { sessions: texts_under(&val, "sessions") })
        } else if text::same(name, "SessionResumed") {
            Ok(ServerEvent::SessionResumed { session_id, session_name })
        } else if text::same(name, "ModelChanged") {
            Ok(ServerEvent::ModelChanged { model: val.text_or_empty("model") })
        } else if text::same(name, "SessionCompacted") {
            Ok(ServerEvent::SessionCompacted { session_id })
        } else if text::same(name, "ModelList") {
            Ok(ServerEvent::ModelList { models: texts_under(&val, "models") })
        } else if text::same(name, "SystemMsg") {
            Ok(ServerEvent::SystemMsg(val.text_or_empty("message")))
        } else {
            Ok(ServerEvent::Unknown(val))
        }
    }

    /// Reads the event of a line from the socket. A blank line has none.
    pub fn from_socket_line(line: &str) -> (r: Option<Result<ServerEvent, EventError>>)
        ensures
            r is None == (text::trimmed(line@).len() == 0),
            r matches Some(x) ==> match (json::read(text::trimmed(line@)), x) {
                (None, Err(EventError::NotJson(_))) => true,
                (Some(JsonTree::Object(entries)), Ok(ev)) => ev@ == news_of(
                    JsonTree::Object(entries),
                ),
                (Some(t), Err(EventError::NotAnObject)) => !(t is Object),
                _ => false,
            },
    {
        let line = text::trim(line);
        if line.as_str().is_empty() {
            None
        } else {
            match json::parse(line.as_str()) {
                Ok(val) => Some(ServerEvent::from_json(val)),
                Err(e) => Some(Err(EventError::NotJson(e))),
            }
        }
    }
}

// ---------------------------------------------------------------------------
// Laws
// ---------------------------------------------------------------------------

/// What the line client reads of an event, every client reads of it: a session that was
/// created, and a piece of output of a kind that all know.
pub proof fn all_clients_read_alike(t: JsonTree)
    ensures
        match loop_client::event_of(t) {
            loop_client::EventModel::Created { session_id, session_name } => news_of(t) == (
            NewsModel::Created { session_id, session_name }),
            loop_client::EventModel::Chunk { session_id, chunk } => {
                &&& news_of(t) matches NewsModel::Chunk { session_id: id, chunk: piece }
                &&& id == session_id
                &&& match chunk {
                    loop_client::ChunkModel::ToolEnd { id, result } => piece matches PieceModel::ToolEnd {
                        id: i,
                        result: x,
                        ..
                    } && i == id && x == result,
                    loop_client::ChunkModel::Unknown => true,
                    _ => piece == PieceModel::Common(chunk),
                }
            },
            loop_client::EventModel::Unknown(_) => true,
        },
{
    reveal_strlit("PermissionRequest");
    reveal_strlit("CacheTelemetry");
    reveal_strlit("TextDelta");
    reveal_strlit("TextComplete");
    reveal_strlit("ThinkingDelta");
    reveal_strlit("ThinkingComplete");
    reveal_strlit("ToolStart");
    reveal_strlit("ToolProgress");
    reveal_strlit("ToolEnd");
    reveal_strlit("AskUserQuestion");
    reveal_strlit("Status");
    reveal_strlit("Error");
    assert("PermissionRequest"@.len() == 17);
    assert("CacheTelemetry"@.len() == 14);
    assert("ToolEnd"@.len() == 7);
    let c = value_at(t, "chunk"@);
    if let JsonTree::Object(entries) = c {
        if entries.len() > 0 {
            let (key, inner) = entries[0];
            if key == "PermissionRequest"@ || key == "CacheTelemetry"@ {
                assert(loop_client::tagged_chunk(key, inner) is Unknown);
            } else if key == "ToolEnd"@ {
                assert(loop_client::tagged_chunk(key, inner) is ToolEnd);
            } else {
                assert(piece_of(c) == PieceModel::Common(loop_client::chunk_of(c)));
                assert(!(loop_client::tagged_chunk(key, inner) is ToolEnd));
            }
        }
    }
}

/// The names of the types of events differ.
proof fn type_names_differ()
    ensures
        "Created"@ != "Chunk"@,
        "Created"@ != "SessionList"@,
        "Created"@ != "SessionResumed"@,
        "Created"@ != "ModelChanged"@,
        "Created"@ != "SessionCompacted"@,
        "Created"@ != "ModelList"@,
        "Created"@ != "SystemMsg"@,
        "Chunk"@ != "SessionList"@,
        "Chunk"@ != "SessionResumed"@,
        "Chunk"@ != "ModelChanged"@,
        "Chunk"@ != "SessionCompacted"@,
        "Chunk"@ != "ModelList"@,
        "Chunk"@ != "SystemMsg"@,
        "SessionList"@ != "SessionResumed"@,
        "SessionList"@ != "ModelChanged"@,
        "SessionList"@ != "SessionCompacted"@,
        "SessionList"@ != "ModelList"@,
        "SessionList"@ != "SystemMsg"@,
        "SessionResumed"@ != "ModelChanged"@,
        "SessionResumed"@ != "SessionCompacted"@,
        "SessionResumed"@ != "ModelList"@,
        "SessionResumed"@ != "SystemMsg"@,
        "ModelChanged"@ != "SessionCompacted"@,
        "ModelChanged"@ != "ModelList"@,
        "ModelChanged"@ != "SystemMsg"@,
        "SessionCompacted"@ != "ModelList"@,
        "SessionCompacted"@ != "SystemMsg"@,
        "ModelList"@ != "SystemMsg"@,
{
    reveal_strlit("Created");
    assert("Created"@.len() == 7 && "Created"@[0] == 'C' && "Created"@[2] == 'e');
    reveal_strlit("Chunk");
    assert("Chunk"@.len() == 5 && "Chunk"@[0] == 'C' && "Chunk"@[2] == 'u');
    reveal_strlit("SessionList");
    assert("SessionList"@.len() == 11 && "SessionList"@[0] == 'S' && "SessionList"@[2] == 's');
    reveal_strlit("SessionResumed");
    assert("SessionResumed"@.len() == 14 && "SessionResumed"@[0] == 'S' && "SessionResumed"@[2] == 's');
    reveal_strlit("ModelChanged");
    assert("ModelChanged"@.len() == 12 && "ModelChanged"@[0] == 'M' && "ModelChanged"@[2] == 'd');
    reveal_strlit("SessionCompacted");
    assert("SessionCompacted"@.len() == 16 && "SessionCompacted"@[0] == 'S' && "SessionCompacted"@[2] == 's');
    reveal_strlit("ModelList");
    assert("ModelList"@.len() == 9 && "ModelList"@[0] == 'M' && "ModelList"@[2] == 'd');
    reveal_strlit("SystemMsg");
    assert("SystemMsg"@.len() == 9 && "SystemMsg"@[0] == 'S' && "SystemMsg"@[2] == 's');
}

/// What an event says is read off it under the names of its members: the session, the
/// model, and what the daemon says.
pub proof fn events_are_read(t: JsonTree, id: Seq<char>, name: Seq<char>, s: Seq<char>)
    requires
        t.text_field("session_id"@) == Some(id),
        t.text_field("session_name"@) == Some(name),
        t.text_field("model"@) == Some(s),
        t.text_field("message"@) == Some(s),
    ensures
        t.text_field("type"@) == Some("Created"@) ==> news_of(t) == (NewsModel::Created {
            session_id: id,
            session_name: name,
        }),
        t.text_field("type"@) == Some("SessionResumed"@) ==> news_of(t) == (
        NewsModel::SessionResumed { session_id: id, session_name: name }),
        t.text_field("type"@) == Some("ModelChanged"@) ==> news_of(t) == (
        NewsModel::ModelChanged { model: s }),
        t.text_field("type"@) == Some("SessionCompacted"@) ==> news_of(t) == (
        NewsModel::SessionCompacted { session_id: id }),
        t.text_field("type"@) == Some("SystemMsg"@) ==> news_of(t) == NewsModel::SystemMsg(s),
{
    type_names_differ();
}

/// The names in a list are read off an event in their order.
pub proof fn lists_are_read(t: JsonTree, items: Seq<JsonTree>, names: Seq<Seq<char>>)
    requires
        items.len() == names.len(),
        forall|i: int| 0 <= i < items.len() ==> #[trigger] items[i] == JsonTree::Text(names[i]),
    ensures
        texts_of(items) == names,
        t.text_field("type"@) == Some("SessionList"@) && t.field("sessions"@) == Some(
            JsonTree::Array(items),
        ) ==> news_of(t) == (NewsModel::SessionList { sessions: names }),
        t.text_field("type"@) == Some("ModelList"@) && t.field("models"@) == Some(
            JsonTree::Array(items),
        ) ==> news_of(t) == (NewsModel::ModelList { models: names }),
    decreases items.len(),
{
    type_names_differ();
    if items.len() > 0 {
        lists_are_read(t, items.drop_last(), names.drop_last());
        assert(items.last() == JsonTree::Text(names.last()));
        assert(names.drop_last().push(names.last()) =~= names);
    } else {
        assert(names =~= Seq::<Seq<char>>::empty());
    }
}

/// What a tool was called with and what it returned is read off its end; so is what a tool
/// wants to do off the question for permission, and what an answer took off its figures.
pub proof fn pieces_are_read(
    inner: JsonTree,
    id: Seq<char>,
    name: Seq<char>,
    input: JsonTree,
    result: JsonTree,
    action: Seq<char>,
    s: Seq<char>,
)
    requires
        inner.text_field("id"@) == Some(id),
        inner.text_field("name"@) == Some(name),
        inner.field("result"@) == Some(result),
        inner.text_field("tool_name"@) == Some(name),
        inner.text_field("action"@) == Some(action),
    ensures
        inner.field("input"@) == Some(input) ==> (piece_of(
            JsonTree::Object(seq![("ToolEnd"@, inner)]),
        ) matches PieceModel::ToolEnd { id: i, name: n, input: v, result: r } && i == id && n == name
            && v == input && r.text == loop_client::result_text(result)),
        inner.field("input"@) == Some(JsonTree::Text(s)) ==> (piece_of(
            JsonTree::Object(seq![("PermissionRequest"@, inner)]),
        ) matches PieceModel::PermissionRequest { tool_name, action: a, input: v, details } && tool_name
            == name && a == action && v == s && details == inner.text_field("details"@)),
{
    reveal_strlit("ToolEnd");
    reveal_strlit("PermissionRequest");
    assert("ToolEnd"@.len() == 7 && "PermissionRequest"@.len() == 17);
}

/// The figures of an answer are read off the members that name them.
pub proof fn figures_are_read(inner: JsonTree, i: u32, o: u32, r: u32, c: u32)
    requires
        inner.whole_field("input_tokens"@) == Some(i as u64),
        inner.whole_field("output_tokens"@) == Some(o as u64),
        inner.whole_field("cache_read_tokens"@) == Some(r as u64),
        inner.whole_field("cache_creation_tokens"@) == Some(c as u64),
    ensures
        piece_of(JsonTree::Object(seq![("CacheTelemetry"@, inner)]))
            == (PieceModel::CacheTelemetry {
            input_tokens: i,
            output_tokens: o,
            cache_read_tokens: r,
            cache_creation_tokens: c,
        }),
{
    reveal_strlit("ToolEnd");
    reveal_strlit("PermissionRequest");
    reveal_strlit("CacheTelemetry");
    assert("ToolEnd"@.len() == 7 && "PermissionRequest"@.len() == 17 && "CacheTelemetry"@.len()
        == 14);
}

} // verus!
