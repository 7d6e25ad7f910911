//! An agent at the console: what its output is shown as, and what the user's input
//! does.

use vstd::prelude::*;

use crate::answers;
use crate::chat;
use crate::json::{Json, JsonTree};
use crate::loop_client::{OptionModel, QuestionModel, UserQuestionWire};
use crate::output;
use crate::output::{
    ChunkModel, InputMessage, InputModel, OutputChunk, ToolResult, ToolResultModel,
};
use crate::permissions::{PermissionDecision, PermissionRequest};
use crate::text;

verus! {

// ---------------------------------------------------------------------------
// Tool calls
// ---------------------------------------------------------------------------

/// The first of two fields that holds a text.
pub open spec fn either_field(input: JsonTree, a: Seq<char>, b: Seq<char>) -> Option<Seq<char>> {
    match input.text_field(a) {
        Some(s) => Some(s),
        None => input.text_field(b),
    }
}

/// The first question of a call that asks the user.
pub open spec fn first_question(input: JsonTree) -> Option<Seq<char>> {
    match input.field("questions"@) {
        Some(JsonTree::Array(v)) => if v.len() > 0 {
            v[0].text_field("question"@)
        } else {
            None
        },
        _ => None,
    }
}

/// An optional text, and nothing where there is none.
pub open spec fn or_nothing(s: Option<Seq<char>>) -> Seq<char> {
    match s {
        Some(s) => s,
        None => seq![],
    }
}

/// The arguments of a tool call in one row.
pub open spec fn tool_args(name: Seq<char>, input: JsonTree) -> Seq<char> {
    if name == "Read"@ || name == "Write"@ || name == "Edit"@ {
        or_nothing(either_field(input, "file_path"@, "path"@))
    } else if name == "Bash"@ {
        match input.text_field("command"@) {
            Some(cmd) => "$ "@ + chat::clipped(cmd, 80),
            None => seq![],
        }
    } else if name == "Grep"@ {
        match input.text_field("pattern"@) {
            Some(p) => "\""@ + p + "\""@,
            None => match input.text_field("regex"@) {
                Some(p) => "/"@ + p + "/"@,
                None => seq![],
            },
        }
    } else if name == "Glob"@ {
        or_nothing(input.text_field("pattern"@))
    } else if name == "AskUserQuestion"@ {
        match first_question(input) {
            Some(q) => chat::clipped(q, 60),
            None => seq![],
        }
    } else {
        seq![]
    }
}

/// Whether what is clipped of the arguments of a tool call can be clipped.
pub open spec fn args_clip(name: Seq<char>, input: JsonTree) -> bool {
    if name == "Bash"@ {
        input.text_field("command"@) matches Some(cmd) ==> text::cuts_at(cmd, 80)
    } else if name == "AskUserQuestion"@ {
        first_question(input) matches Some(q) ==> text::cuts_at(q, 60)
    } else {
        true
    }
}

/// The first of two fields that holds a text, and nothing where none does.
fn either(input: &Json, a: &str, b: &str) -> (r: String)
    ensures
        r@ == or_nothing(either_field(input@, a@, b@)),
{
    match input.get_text(a) {
        Some(s) => s,
        None => input.text_or_empty(b),
    }
}

/// The first question of a call that asks the user.
fn find_question(input: &Json) -> (r: Option<String>)
    ensures
        match r {
            Some(s) => first_question(input@) == Some(s@),
            None => first_question(input@) is None,
        },
{
    match input.get("questions") {
        Some(q) => match q.as_array() {
            Some(v) => if v.len() > 0 {
                v[0].get_text("question")
            } else {
                None
            },
            None => None,
        },
        None => None,
    }
}

/// The arguments of a tool call in one row.
pub fn format_tool_args(name: &str, input: &Json) -> (r: String)
    requires
        args_clip(name@, input@),
    ensures
        r@ == tool_args(name@, input@),
{
    let none = String::new();
    assert(none@ =~= seq![]);
    if text::same(name, "Read") || text::same(name, "Write") || text::same(name, "Edit") {
        either(input, "file_path", "path")
    } else if text::same(name, "Bash") {
        match input.get_text("command") {
            Some(cmd) => text::cat2("$ ", chat::clip(cmd.as_str(), 80).as_str()),
            None => none,
        }
    } else if text::same(name, "Grep") {
        match input.get_text("pattern") {
            Some(p) => text::cat3("\"", p.as_str(), "\""),
            None => match input.get_text("regex") {
                Some(p) => text::cat3("/", p.as_str(), "/"),
                None => none,
            },
        }
    } else if text::same(name, "Glob") {
        input.text_or_empty("pattern")
    } else if text::same(name, "AskUserQuestion") {
        match find_question(input) {
            Some(q) => chat::clip(q.as_str(), 60),
            None => none,
        }
    } else {
        none
    }
}

/// Whether what is clipped of the arguments of a tool call can be clipped.
pub fn can_format(name: &str, input: &Json) -> (r: bool)
    ensures
        r == args_clip(name@, input@),
{
    if text::same(name, "Bash") {
        match input.get_text("command") {
            Some(cmd) => text::can_cut(cmd.as_str(), 80),
            None => true,
        }
    } else if text::same(name, "AskUserQuestion") {
        match find_question(input) {
            Some(q) => text::can_cut(q.as_str(), 60),
            None => true,
        }
    } else {
        true
    }
}

// ---------------------------------------------------------------------------
// What is shown
// ---------------------------------------------------------------------------

/// How std shows an optional text to a programmer.
pub uninterp spec fn debug_shown(s: Option<Seq<char>>) -> Seq<char>;

/// An optional text as its `Debug` shows it: a function of the text alone.
#[verifier::external_body]
fn debug_of(s: &Option<String>) -> (r: String)
    ensures
        r@ == debug_shown(text::opt_view(*s)),
{
    format!("{:?}", s)
}

/// Something that the console does.
pub enum ConsoleAction {
    AssistantPrefix,
    AssistantChunk(String),
    NewLine,
    ThinkingPrefix,
    ThinkingChunk(String),
    ThinkingSuffix,
    ToolAction { name: String, args: String },
    ToolDone(ToolResult),
    /// Asks the user whether a tool may be used, and tells the agent.
    AskPermission(PermissionRequest),
    System(String),
    Error(String),
    /// Tells the agent something.
    Tell(InputMessage),
}

/// Something that the console does.
pub enum ConsoleModel {
    AssistantPrefix,
    AssistantChunk(Seq<char>),
    NewLine,
    ThinkingPrefix,
    ThinkingChunk(Seq<char>),
    ThinkingSuffix,
    ToolAction { name: Seq<char>, args: Seq<char> },
    ToolDone(ToolResultModel),
    AskPermission {
        tool_name: Seq<char>,
        action: Seq<char>,
        input: Seq<char>,
        details: Option<Seq<char>>,
    },
    System(Seq<char>),
    Error(Seq<char>),
    Answers { request_id: Seq<char>, answers: Seq<(Seq<char>, Seq<char>)> },
    Tell(InputModel),
}

impl View for ConsoleAction {
    type V = ConsoleModel;

    open spec fn view(&self) -> ConsoleModel {
        match self {
            ConsoleAction::AssistantPrefix => ConsoleModel::AssistantPrefix,
            ConsoleAction::AssistantChunk(s) => ConsoleModel::AssistantChunk(s@),
            ConsoleAction::NewLine => ConsoleModel::NewLine,
            ConsoleAction::ThinkingPrefix => ConsoleModel::ThinkingPrefix,
            ConsoleAction::ThinkingChunk(s) => ConsoleModel::ThinkingChunk(s@),
            ConsoleAction::ThinkingSuffix => ConsoleModel::ThinkingSuffix,
            ConsoleAction::ToolAction { name, args } => ConsoleModel::ToolAction {
                name: name@,
                args: args@,
            },
            ConsoleAction::ToolDone(r) => ConsoleModel::ToolDone(r@),
            ConsoleAction::AskPermission(p) => ConsoleModel::AskPermission {
                tool_name: p.tool_name@,
                action: p.action_description@,
                input: p.input@,
                details: text::opt_view(p.details),
            },
            ConsoleAction::System(s) => ConsoleModel::System(s@),
            ConsoleAction::Error(s) => ConsoleModel::Error(s@),
            ConsoleAction::Tell(m) => match m {
                InputMessage::UserQuestionResponse { request_id, answers } => {
                    ConsoleModel::Answers {
                        request_id: request_id@,
                        answers: answers::answer_views(answers@),
                    }
                },
                _ => ConsoleModel::Tell(m@),
            },
        }
    }
}

/// What a list of actions does.
pub open spec fn console_views(v: Seq<ConsoleAction>) -> Seq<ConsoleModel> {
    Seq::new(v.len(), |i: int| v[i]@)
}

/// Where the console is in an answer.
#[derive(Debug, Clone, Copy, PartialEq, Eq, Structural)]
pub struct Place {
    pub in_text: bool,
    pub in_thinking: bool,
}

/// What the console shows of an answer.
#[derive(Debug, Clone, Copy, PartialEq, Eq, Structural)]
pub struct ConsoleRenderer {
    pub show_thinking: bool,
    pub show_tools: bool,
}

/// What a piece of output does to the place in an answer, what is shown, and whether
/// the answer is over.
#[verifier::ext_equal]
pub struct Rendered {
    pub place: Place,
    pub actions: Seq<ConsoleModel>,
    pub over: bool,
}

/// The end of a row of text, where the console is in one.
pub open spec fn row_end(place: Place) -> Seq<ConsoleModel> {
    if place.in_text {
        seq![ConsoleModel::NewLine]
    } else {
        seq![]
    }
}

/// An answer that a question offers, as it is listed.
pub open spec fn option_row(i: int, o: OptionModel) -> Seq<char> {
    "  "@ + text::decimal((i + 1) as nat) + ". "@ + o.label + " - "@ + o.description
}

/// The first answers that a question offers, as they are listed.
pub open spec fn option_rows(options: Seq<OptionModel>) -> Seq<ConsoleModel>
    decreases options.len(),
{
    if options.len() == 0 {
        seq![]
    } else {
        option_rows(options.drop_last()).push(
            ConsoleModel::System(option_row(options.len() - 1, options.last())),
        )
    }
}

/// A question and the answers that it offers, as they are listed.
pub open spec fn question_rows(q: QuestionModel) -> Seq<ConsoleModel> {
    seq![ConsoleModel::System("["@ + q.header + "] "@ + q.question)] + option_rows(q.options)
}

/// Some questions as they are listed.
pub open spec fn all_rows(questions: Seq<QuestionModel>) -> Seq<ConsoleModel>
    decreases questions.len(),
{
    if questions.len() == 0 {
        seq![]
    } else {
        all_rows(questions.drop_last()) + question_rows(questions.last())
    }
}

/// The answers to some questions: to each the first one that it offers.
pub open spec fn first_answers(questions: Seq<QuestionModel>) -> Seq<(Seq<char>, Seq<char>)>
    decreases questions.len(),
{
    if questions.len() == 0 {
        seq![]
    } else {
        let before = first_answers(questions.drop_last());
        let q = questions.last();
        if q.options.len() > 0 {
            answers::with_answer(before, q.header, q.options[0].label)
        } else {
            before
        }
    }
}

/// What a piece of output is shown as.
pub open spec fn rendered(r: ConsoleRenderer, place: Place, chunk: ChunkModel) -> Rendered {
    let quiet = Rendered { place, actions: seq![], over: false };
    let outside = Place { in_text: false, ..place };
    match chunk {
        ChunkModel::TextDelta(s) => Rendered {
            place: Place { in_text: true, ..place },
            actions: (if place.in_text {
                seq![]
            } else {
                seq![ConsoleModel::AssistantPrefix]
            }).push(ConsoleModel::AssistantChunk(s)),
            over: false,
        },
        ChunkModel::TextComplete(_) => Rendered { place: outside, actions: row_end(place), over: false
        },
        ChunkModel::ThinkingDelta(s) => if r.show_thinking {
            Rendered {
                place: Place { in_thinking: true, ..place },
                actions: (if place.in_thinking {
                    seq![]
                } else {
                    seq![ConsoleModel::ThinkingPrefix]
                }).push(ConsoleModel::ThinkingChunk(s)),
                over: false,
            }
        } else {
            quiet
        },
        ChunkModel::ThinkingComplete(_) => if r.show_thinking && place.in_thinking {
            Rendered {
                place: Place { in_thinking: false, ..place },
                actions: seq![ConsoleModel::ThinkingSuffix],
                over: false,
            }
        } else {
            quiet
        },
        ChunkModel::ToolStart { name, input, .. } => Rendered {
            place: outside,
            actions: row_end(place) + (if r.show_tools {
                seq![ConsoleModel::ToolAction { name, args: tool_args(name, input) }]
            } else {
                seq![]
            }),
            over: false,
        },
        ChunkModel::ToolProgress { .. } => quiet,
        ChunkModel::ToolEnd { result, .. } => if r.show_tools {
            Rendered { actions: seq![ConsoleModel::ToolDone(result)], ..quiet }
        } else {
            quiet
        },
        ChunkModel::PermissionRequest { tool_name, action, input, details } => Rendered {
            place: outside,
            actions: row_end(place).push(
                ConsoleModel::AskPermission { tool_name, action, input, details },
            ),
            over: false,
        },
        ChunkModel::AskUserQuestion { request_id, questions } => Rendered {
            place: outside,
            actions: (row_end(place) + all_rows(questions)).push(
                ConsoleModel::Answers { request_id, answers: first_answers(questions) },
            ),
            over: false,
        },
        ChunkModel::Status(s) => Rendered { actions: seq![ConsoleModel::System(s)], ..quiet },
        ChunkModel::StateChange(_) => quiet,
        ChunkModel::Done => Rendered { actions: row_end(place), over: true, ..quiet },
        ChunkModel::Error(e) => Rendered {
            actions: row_end(place).push(ConsoleModel::Error(e)),
            over: true,
            ..quiet
        },
        ChunkModel::SubAgentSpawned { session_id, agent_type } => Rendered {
            actions: seq![
                ConsoleModel::System(
                    "Spawned subagent: "@ + agent_type + " ("@ + session_id + ")"@,
                ),
            ],
            ..quiet
        },
        ChunkModel::SubAgentComplete { session_id, result } => Rendered {
            actions: seq![
                ConsoleModel::System(
                    "Subagent "@ + session_id + " completed: "@ + debug_shown(result),
                ),
            ],
            ..quiet
        },
        ChunkModel::SubAgentOutput { .. } => quiet,
    }
}

/// Whether a piece of output can be shown.
pub open spec fn showable(chunk: ChunkModel) -> bool {
    match chunk {
        ChunkModel::ToolStart { name, input, .. } => args_clip(name, input),
        _ => true,
    }
}

/// Lists a question and the answers that it offers.
fn list_question(out: &mut Vec<ConsoleAction>, q: &UserQuestionWire)
    ensures
        console_views(final(out)@) == console_views(old(out)@) + question_rows(q@),
{
    let ghost was = console_views(out@);
    let ghost options = q@.options;
    out.push(
        ConsoleAction::System(text::cat4("[", q.header.as_str(), "] ", q.question.as_str())),
    );
    let ghost head = seq![ConsoleModel::System("["@ + q@.header + "] "@ + q@.question)];
    assert(console_views(out@) =~= was + head);
    let mut i: usize = 0;
    assert(console_views(out@) =~= was + head + option_rows(options.take(0)));
    while i < q.options.len()
        invariant
            i <= q.options.len(),
            options == q@.options,
            console_views(out@) == was + head + option_rows(options.take(i as int)),
        decreases q.options.len() - i,
    {
        let ghost before = console_views(out@);
        let o = &q.options[i];
        let left = text::cat4(
            "  ",
            text::number(i as u64 + 1).as_str(),
            ". ",
            o.label.as_str(),
        );
        let row = text::cat3(left.as_str(), " - ", o.description.as_str());
        proof {
            assert(options.take(i + 1).drop_last() =~= options.take(i as int));
            assert(options.take(i + 1).last() == o@);
            assert(row@ =~= option_row(i as int, o@));
        }
        out.push(ConsoleAction::System(row));
        assert(console_views(out@) =~= before.push(ConsoleModel::System(row@)));
        assert(option_rows(options.take(i + 1)) == option_rows(options.take(i as int)).push(
            ConsoleModel::System(row@),
        ));
        assert(console_views(out@) =~= was + head + option_rows(options.take(i + 1)));
        i += 1;
    }
    assert(options.take(i as int) =~= options);
    assert(was + head + option_rows(options) =~= was + question_rows(q@));
}

impl ConsoleRenderer {
    /// A console that shows everything.
    pub fn new() -> (r: ConsoleRenderer)
        ensures
            r == (ConsoleRenderer { show_thinking: true, show_tools: true }),
    {
        ConsoleRenderer { show_thinking: true, show_tools: true }
    }

    /// The console with or without thoughts.
    pub fn show_thinking(self, show: bool) -> (r: ConsoleRenderer)
        ensures
            r == (ConsoleRenderer { show_thinking: show, ..self }),
    {
        ConsoleRenderer { show_thinking: show, ..self }
    }

    /// The console with or without tools.
    pub fn show_tools(self, show: bool) -> (r: ConsoleRenderer)
        ensures
            r == (ConsoleRenderer { show_tools: show, ..self }),
    {
        ConsoleRenderer { show_tools: show, ..self }
    }

    /// The place at which an answer begins.
    pub fn start() -> (r: Place)
        ensures
            r == (Place { in_text: false, in_thinking: false }),
    {
        Place { in_text: false, in_thinking: false }
    }

    /// Lists questions, and answers them.
    fn questions(
        out: &mut Vec<ConsoleAction>,
        request_id: String,
        questions: &Vec<UserQuestionWire>,
    )
        ensures
            console_views(final(out)@) == (console_views(old(out)@) + all_rows(
                output::question_views(questions@),
            )).push(
                ConsoleModel::Answers {
                    request_id: request_id@,
                    answers: first_answers(output::question_views(questions@)),
                },
            ),
    {
        let ghost was = console_views(out@);
        let ghost all = output::question_views(questions@);
        let mut chosen: Vec<(String, String)> = Vec::new();
        let mut i: usize = 0;
        assert(answers::answer_views(chosen@) =~= first_answers(all.take(0)));
        assert(was =~= was + all_rows(all.take(0)));
        while i < questions.len()
            invariant
                i <= questions.len(),
                all == output::question_views(questions@),
                console_views(out@) == was + all_rows(all.take(i as int)),
                answers::answer_views(chosen@) == first_answers(all.take(i as int)),
            decreases questions.len() - i,
        {
            let q = &questions[i];
            proof {
                assert(all.take(i + 1).drop_last() =~= all.take(i as int));
                assert(all.take(i + 1).last() == q@);
            }
            list_question(out, q);
            assert(console_views(out@) =~= was + all_rows(all.take(i + 1)));
            if q.options.len() > 0 {
                assert(q@.options[0] == q.options@[0]@);
                answers::put_answer(&mut chosen, q.header.as_str(), q.options[0].label.as_str());
            }
            i += 1;
        }
        assert(all.take(i as int) =~= all);
        let ghost before = console_views(out@);
        out.push(
            ConsoleAction::Tell(InputMessage::UserQuestionResponse { request_id, answers: chosen }),
        );
        assert(console_views(out@) =~= before.push(
            ConsoleModel::Answers {
                request_id: request_id@,
                answers: answers::answer_views(chosen@),
            },
        ));
    }

    /// Shows a piece of output, and says whether the answer is over.
    pub fn render(&self, place: &mut Place, chunk: OutputChunk) -> (r: (Vec<ConsoleAction>, bool))
        requires
            self.show_tools ==> showable(chunk@),
        ensures
            ({
                let want = rendered(*self, *old(place), chunk@);
                &&& *final(place) == want.place
                &&& console_views((r.0)@) == want.actions
                &&& r.1 == want.over
            }),
    {
        let ghost want = rendered(*self, *place, chunk@);
        let mut out: Vec<ConsoleAction> = Vec::new();
        let mut over = false;
        assert(console_views(out@) =~= seq![]);
        match chunk {
            OutputChunk::TextDelta(s) => {
                if !place.in_text {
                    out.push(ConsoleAction::AssistantPrefix);
                    place.in_text = true;
                }
                out.push(ConsoleAction::AssistantChunk(s));
            },
            OutputChunk::TextComplete(_) => {
                ConsoleRenderer::end_row(&mut out, place);
            },
            OutputChunk::ThinkingDelta(s) => {
                if self.show_thinking {
                    if !place.in_thinking {
                        out.push(ConsoleAction::ThinkingPrefix);
                        place.in_thinking = true;
                    }
                    out.push(ConsoleAction::ThinkingChunk(s));
                }
            },
            OutputChunk::ThinkingComplete(_) => {
                if self.show_thinking && place.in_thinking {
                    out.push(ConsoleAction::ThinkingSuffix);
                    place.in_thinking = false;
                }
            },
            OutputChunk::ToolStart { id: _, name, input } => {
                ConsoleRenderer::end_row(&mut out, place);
                if self.show_tools {
                    let args = format_tool_args(name.as_str(), &input);
                    out.push(ConsoleAction::ToolAction { name, args });
                }
            },
            OutputChunk::ToolProgress { .. } => {},
            OutputChunk::ToolEnd { id: _, result } => {
                if self.show_tools {
                    out.push(ConsoleAction::ToolDone(result));
                }
            },
            OutputChunk::PermissionRequest { tool_name, action, input, details } => {
                ConsoleRenderer::end_row(&mut out, place);
                out.push(
                    ConsoleAction::AskPermission(
                        PermissionRequest { tool_name, action_description: action, input, details },
                    ),
                );
            },
            OutputChunk::AskUserQuestion { request_id, questions } => {
                ConsoleRenderer::end_row(&mut out, place);
                ConsoleRenderer::questions(&mut out, request_id, &questions);
            },
            OutputChunk::Status(s) => {
                out.push(ConsoleAction::System(s));
            },
            OutputChunk::StateChange(_) => {},
            OutputChunk::Done => {
                if place.in_text {
                    out.push(ConsoleAction::NewLine);
                }
                over = true;
            },
            OutputChunk::Error(e) => {
                if place.in_text {
                    out.push(ConsoleAction::NewLine);
                }
                out.push(ConsoleAction::Error(e));
                over = true;
            },
            OutputChunk::SubAgentSpawned { session_id, agent_type } => {
                out.push(
                    ConsoleAction::System(
                        text::cat5(
                            "Spawned subagent: ",
                            agent_type.as_str(),
                            " (",
                            session_id.as_str(),
                            ")",
                        ),
                    ),
                );
            },
            OutputChunk::SubAgentComplete { session_id, result } => {
                out.push(
                    ConsoleAction::System(
                        text::cat4(
                            "Subagent ",
                            session_id.as_str(),
                            " completed: ",
                            debug_of(&result).as_str(),
                        ),
                    ),
                );
            },
            OutputChunk::SubAgentOutput { .. } => {},
        }
        assert(console_views(out@) =~= want.actions);
        (out, over)
    }

    /// Ends a row of text, where the console is in one.
    fn end_row(out: &mut Vec<ConsoleAction>, place: &mut Place)
        ensures
            console_views(final(out)@) == console_views(old(out)@) + row_end(*old(place)),
            *final(place) == (Place { in_text: false, ..*old(place) }),
    {
        if place.in_text {
            out.push(ConsoleAction::NewLine);
            place.in_text = false;
        }
        assert(console_views(out@) =~= console_views(old(out)@) + row_end(*old(place)));
    }

    /// Whether a piece of output can be shown: where tools are hidden, anything can.
    pub fn can_render(&self, chunk: &OutputChunk) -> (r: bool)
        ensures
            r == (self.show_tools ==> showable(chunk@)),
    {
        match chunk {
            OutputChunk::ToolStart { id: _, name, input } => !self.show_tools || can_format(
                name.as_str(),
                input,
            ),
            _ => true,
        }
    }
}

// ---------------------------------------------------------------------------
// What the user says
// ---------------------------------------------------------------------------

/// What is done with what the user typed.
pub enum ConsoleInput {
    /// Ends the agent, and says so.
    Leave { notice: String },
    /// Nothing.
    Skip,
    /// Hands it to the agent.
    Send(String),
}

/// What is done with what the user typed.
pub fn on_input(input: String) -> (r: ConsoleInput)
    ensures
        if text::same_but_case(input@, "exit"@) || text::same_but_case(input@, "quit"@) {
            r matches ConsoleInput::Leave { notice } && notice@ == "Shutting down..."@
        } else if text::trimmed(input@).len() == 0 {
            r is Skip
        } else {
            r == ConsoleInput::Send(input)
        },
{
    if text::same_ignoring_case(input.as_str(), "exit") || text::same_ignoring_case(
        input.as_str(),
        "quit",
    ) {
        ConsoleInput::Leave { notice: "Shutting down...".to_string() }
    } else if text::is_empty(text::trim(input.as_str()).as_str()) {
        ConsoleInput::Skip
    } else {
        ConsoleInput::Send(input)
    }
}

/// What is shown where input could not be sent.
pub fn send_failure(e: &str) -> (r: String)
    ensures
        r@ == "Failed to send input: "@ + e@,
{
    text::cat2("Failed to send input: ", e)
}

/// What is shown where an answer could not be shown.
pub fn render_failure(e: &str) -> (r: String)
    ensures
        r@ == "Render error: "@ + e@,
{
    text::cat2("Render error: ", e)
}

/// How a turn with the agent ended.
pub enum TurnEnd {
    /// The answer was shown, or pieces of it were missed.
    Shown,
    /// The agent shut down before its answer was over.
    Closed,
    /// The answer could not be shown.
    RenderFailed(String),
    /// The input did not reach the agent: it has shut down.
    SendFailed(String),
}

/// What the console does after a turn.
pub struct AfterTurn {
    /// What is shown as an error.
    pub error: Option<String>,
    /// A blank line is shown.
    pub blank_line: bool,
    /// The console ends.
    pub leave: bool,
}

/// What the console does after a turn: it ends when the agent has shut down.
pub fn after_turn(end: TurnEnd) -> (r: AfterTurn)
    ensures
        text::opt_view(r.error) == match end {
            TurnEnd::Shown => None,
            TurnEnd::Closed => None,
            TurnEnd::RenderFailed(e) => Some("Render error: "@ + e@),
            TurnEnd::SendFailed(e) => Some("Failed to send input: "@ + e@),
        },
        r.blank_line == !(end is SendFailed),
        r.leave == (end is Closed || end is SendFailed),
{
    match end {
        TurnEnd::Shown => AfterTurn { error: None, blank_line: true, leave: false },
        TurnEnd::Closed => AfterTurn { error: None, blank_line: true, leave: true },
        TurnEnd::RenderFailed(e) => AfterTurn {
            error: Some(render_failure(e.as_str())),
            blank_line: true,
            leave: false,
        },
        TurnEnd::SendFailed(e) => AfterTurn {
            error: Some(send_failure(e.as_str())),
            blank_line: false,
            leave: true,
        },
    }
}

/// What the agent is told when the user has decided whether a tool may be used.
pub fn permission_response(tool_name: &str, decision: PermissionDecision) -> (r: InputMessage)
    ensures
        r@ == (InputModel::PermissionResponse {
            tool_name: tool_name@,
            allowed: decision is Allow || decision is AlwaysAllow,
            remember: decision is AlwaysAllow || decision is AlwaysDeny,
        }),
{
    let (allowed, remember) = match decision {
        PermissionDecision::Allow => (true, false),
        PermissionDecision::Deny => (false, false),
        PermissionDecision::AlwaysAllow => (true, true),
        PermissionDecision::AlwaysDeny => (false, true),
    };
    InputMessage::PermissionResponse { tool_name: tool_name.to_string(), allowed, remember }
}

// ---------------------------------------------------------------------------
// Laws
// ---------------------------------------------------------------------------

/// An answer is over exactly when the agent is done or failed.
pub proof fn answers_end_with_done_or_error(r: ConsoleRenderer, place: Place, chunk: ChunkModel)
    ensures
        rendered(r, place, chunk).over == (chunk is Done || chunk is Error),
{
}

/// A console that shows no thoughts shows nothing of them, and is never in one.
pub proof fn hidden_thoughts_stay_hidden(r: ConsoleRenderer, place: Place, s: Seq<char>)
    requires
        !r.show_thinking,
    ensures
        rendered(r, place, ChunkModel::ThinkingDelta(s)) == (Rendered {
            place,
            actions: seq![],
            over: false,
        }),
        rendered(r, place, ChunkModel::ThinkingComplete(s)) == (Rendered {
            place,
            actions: seq![],
            over: false,
        }),
{
}

/// Pieces of text that follow each other stand in one row: the prefix comes before the
/// first of them alone.
pub proof fn text_has_one_prefix(r: ConsoleRenderer, place: Place, a: Seq<char>, b: Seq<char>)
    ensures
        ({
            let first = rendered(r, place, ChunkModel::TextDelta(a));
            rendered(r, first.place, ChunkModel::TextDelta(b)).actions == seq![
                ConsoleModel::AssistantChunk(b),
            ]
        }),
{
    let first = rendered(r, place, ChunkModel::TextDelta(a));
    assert(rendered(r, first.place, ChunkModel::TextDelta(b)).actions =~= seq![
        ConsoleModel::AssistantChunk(b),
    ]);
}

/// What the agent streams, its errors, its state and its questions for permission are
/// shown as they came; so are its thoughts, and the results of its tools, where they are not
/// hidden.
pub proof fn output_is_shown(
    r: ConsoleRenderer,
    place: Place,
    s: Seq<char>,
    id: Seq<char>,
    result: ToolResultModel,
    tool_name: Seq<char>,
    action: Seq<char>,
    details: Option<Seq<char>>,
)
    ensures
        rendered(r, place, ChunkModel::TextDelta(s)).actions.last() == ConsoleModel::AssistantChunk(
            s,
        ),
        !place.in_text ==> rendered(r, place, ChunkModel::TextDelta(s)).actions == seq![
            ConsoleModel::AssistantPrefix,
            ConsoleModel::AssistantChunk(s),
        ],
        rendered(r, place, ChunkModel::Error(s)).actions.last() == ConsoleModel::Error(s),
        rendered(r, place, ChunkModel::Status(s)).actions == seq![ConsoleModel::System(s)],
        r.show_thinking ==> rendered(r, place, ChunkModel::ThinkingDelta(s)).actions.last()
            == ConsoleModel::ThinkingChunk(s),
        r.show_tools ==> rendered(r, place, ChunkModel::ToolEnd { id, result }).actions == seq![
            ConsoleModel::ToolDone(result),
        ],
        !r.show_tools ==> rendered(r, place, ChunkModel::ToolEnd { id, result }).actions.len() == 0,
        rendered(
            r,
            place,
            ChunkModel::PermissionRequest { tool_name, action, input: s, details },
        ).actions.last() == (ConsoleModel::AskPermission { tool_name, action, input: s, details }),
{
    assert(seq![ConsoleModel::AssistantPrefix].push(ConsoleModel::AssistantChunk(s)) =~= seq![
        ConsoleModel::AssistantPrefix,
        ConsoleModel::AssistantChunk(s),
    ]);
}

/// A tool is shown with its name and with what tells best what it does: the file, the
/// command or the pattern.
pub proof fn tools_are_shown_with_their_arguments(
    r: ConsoleRenderer,
    place: Place,
    id: Seq<char>,
    name: Seq<char>,
    input: JsonTree,
    s: Seq<char>,
)
    requires
        r.show_tools,
        text::byte_len(s) <= 80,
    ensures
        rendered(r, place, ChunkModel::ToolStart { id, name, input }).actions.last() matches ConsoleModel::ToolAction {
            name: n,
            args,
        } && {
            &&& n == name
            &&& (name == "Read"@ || name == "Write"@ || name == "Edit"@) && input.text_field(
                "file_path"@,
            ) == Some(s) ==> args == s
            &&& name == "Bash"@ && input.text_field("command"@) == Some(s) ==> args == "$ "@ + s
            &&& name == "Grep"@ && input.text_field("pattern"@) == Some(s) ==> args == "\""@ + s
                + "\""@
            &&& name == "Glob"@ && input.text_field("pattern"@) == Some(s) ==> args == s
        },
{
    reveal_strlit("Read");
    reveal_strlit("Write");
    reveal_strlit("Edit");
    reveal_strlit("Bash");
    reveal_strlit("Grep");
    reveal_strlit("Glob");
    assert("Write"@.len() == 5);
    assert("Read"@.len() == 4 && "Read"@[0] == 'R');
    assert("Edit"@.len() == 4 && "Edit"@[0] == 'E');
    assert("Bash"@.len() == 4 && "Bash"@[0] == 'B');
    assert("Grep"@.len() == 4 && "Grep"@[0] == 'G' && "Grep"@[1] == 'r');
    assert("Glob"@.len() == 4 && "Glob"@[0] == 'G' && "Glob"@[1] == 'l');
    let a = rendered(r, place, ChunkModel::ToolStart { id, name, input }).actions;
    assert(a.last() == (ConsoleModel::ToolAction { name, args: tool_args(name, input) }));
}

/// Questions are shown with their answers, each behind its number, and the agent is told
/// the first answer to each of them.
pub proof fn questions_are_shown_and_answered(
    r: ConsoleRenderer,
    place: Place,
    request_id: Seq<char>,
    questions: Seq<QuestionModel>,
    q: QuestionModel,
    options: Seq<OptionModel>,
    o: OptionModel,
)
    ensures
        rendered(
            r,
            place,
            ChunkModel::AskUserQuestion { request_id, questions },
        ).actions.last() == (ConsoleModel::Answers {
            request_id,
            answers: first_answers(questions),
        }),
        q.options.len() > 0 ==> first_answers(questions.push(q)) == answers::with_answer(
            first_answers(questions),
            q.header,
            q.options[0].label,
        ),
        all_rows(questions.push(q)) == all_rows(questions) + (seq![
            ConsoleModel::System("["@ + q.header + "] "@ + q.question),
        ] + option_rows(q.options)),
        option_rows(options.push(o)) == option_rows(options).push(
            ConsoleModel::System(
                "  "@ + text::decimal((options.len() + 1) as nat) + ". "@ + o.label + " - "@
                    + o.description,
            ),
        ),
{
    assert(questions.push(q).drop_last() =~= questions);
    assert(options.push(o).drop_last() =~= options);
}

/// A search by an expression shows it between slashes, and a tool that asks shows what it asks
/// first; agents that are started and that end are told.
pub proof fn other_tools_and_agents_are_shown(
    r: ConsoleRenderer,
    place: Place,
    input: JsonTree,
    v: Seq<JsonTree>,
    s: Seq<char>,
    id: Seq<char>,
    result: Option<Seq<char>>,
)
    requires
        text::byte_len(s) <= 60,
    ensures
        input.text_field("pattern"@) is None && input.text_field("regex"@) == Some(s) ==> tool_args(
            "Grep"@,
            input,
        ) == "/"@ + s + "/"@,
        input.field("questions"@) == Some(JsonTree::Array(v)) && v.len() > 0 && v[0].text_field(
            "question"@,
        ) == Some(s) ==> tool_args("AskUserQuestion"@, input) == s,
        rendered(
            r,
            place,
            ChunkModel::SubAgentSpawned { session_id: id, agent_type: s },
        ).actions == seq![ConsoleModel::System("Spawned subagent: "@ + s + " ("@ + id + ")"@)],
        rendered(
            r,
            place,
            ChunkModel::SubAgentComplete { session_id: id, result },
        ).actions == seq![
            ConsoleModel::System("Subagent "@ + id + " completed: "@ + debug_shown(result)),
        ],
{
    reveal_strlit("Read");
    reveal_strlit("Write");
    reveal_strlit("Edit");
    reveal_strlit("Bash");
    reveal_strlit("Grep");
    reveal_strlit("Glob");
    reveal_strlit("AskUserQuestion");
    assert("Write"@.len() == 5 && "AskUserQuestion"@.len() == 15);
    assert("Read"@.len() == 4 && "Read"@[0] == 'R');
    assert("Edit"@.len() == 4 && "Edit"@[0] == 'E');
    assert("Bash"@.len() == 4 && "Bash"@[0] == 'B');
    assert("Grep"@.len() == 4 && "Grep"@[0] == 'G' && "Grep"@[1] == 'r');
    assert("Glob"@.len() == 4 && "Glob"@[0] == 'G' && "Glob"@[1] == 'l');
}

/// A file is also shown where its path is given under the other name.
pub proof fn paths_have_two_names(name: Seq<char>, input: JsonTree, s: Seq<char>)
    requires
        name == "Read"@ || name == "Write"@ || name == "Edit"@,
        input.text_field("file_path"@) is None,
    ensures
        input.text_field("path"@) == Some(s) ==> tool_args(name, input) == s,
        input.text_field("path"@) is None ==> tool_args(name, input).len() == 0,
{
}

} // verus!
