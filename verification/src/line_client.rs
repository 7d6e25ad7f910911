//! The line client: it sends what the user types to the daemon, and prints what comes
//! back.

use vstd::prelude::*;

use crate::answers;
use crate::chat;
use crate::json::JsonTree;
use crate::loop_client::{
    ChunkModel, EventModel, OptionModel, OutputChunk, QuestionModel, ResultModel, ServerEvent,
    SessionConfig, UserQuestionWire,
};
use crate::text;

verus! {

// ---------------------------------------------------------------------------
// Arguments and input
// ---------------------------------------------------------------------------

/// Whether a flag is among some arguments.
pub open spec fn has_flag(args: Seq<Seq<char>>, flag: Seq<char>) -> bool {
    args.contains(flag)
}

/// Whether a flag is among some arguments.
fn find_flag(args: &Vec<String>, flag: &str) -> (r: bool)
    ensures
        r == has_flag(text::views(args@), flag@),
{
    let ghost all = text::views(args@);
    let mut i: usize = 0;
    while i < args.len()
        invariant
            i <= args.len(),
            all == text::views(args@),
            forall|j: int| 0 <= j < i ==> #[trigger] all[j] != flag@,
        decreases args.len() - i,
    {
        if text::same(args[i].as_str(), flag) {
            assert(all[i as int] == flag@);
            return true;
        }
        i += 1;
    }
    false
}

/// How a session is run, by the arguments of the program.
pub fn session_config(args: &Vec<String>) -> (r: SessionConfig)
    ensures
        r.stream == !(has_flag(text::views(args@), "--no-stream"@) || has_flag(
            text::views(args@),
            "-n"@,
        )),
        r.think == (has_flag(text::views(args@), "--think"@) || has_flag(
            text::views(args@),
            "-t"@,
        )),
        r.no_cache == has_flag(text::views(args@), "--no-cache"@),
{
    SessionConfig {
        stream: !(find_flag(args, "--no-stream") || find_flag(args, "-n")),
        think: find_flag(args, "--think") || find_flag(args, "-t"),
        no_cache: find_flag(args, "--no-cache"),
    }
}

/// What is done with a line of input.
pub enum LineInput {
    /// Nothing.
    Skip,
    /// The program ends, and says so.
    Leave { notice: String },
    /// It is sent to the daemon.
    Send(String),
}

/// What is done with a line of input. Blanks around it do not count.
pub fn on_line(line: &str) -> (r: LineInput)
    ensures
        ({
            let s = text::trimmed(line@);
            if s.len() == 0 {
                r is Skip
            } else if s == "exit"@ || s == "/exit"@ || s == "/quit"@ {
                r matches LineInput::Leave { notice } && notice@ == "Goodbye!\n"@
            } else {
                r matches LineInput::Send(t) && t@ == s
            }
        }),
{
    let s = text::trim(line);
    if text::is_empty(s.as_str()) {
        LineInput::Skip
    } else if text::same(s.as_str(), "exit") || text::same(s.as_str(), "/exit") || text::same(
        s.as_str(),
        "/quit",
    ) {
        LineInput::Leave { notice: "Goodbye!\n".to_string() }
    } else {
        LineInput::Send(s)
    }
}

// ---------------------------------------------------------------------------
// Events
// ---------------------------------------------------------------------------

/// What is printed of a piece of output.
pub open spec fn printed(chunk: ChunkModel) -> Seq<char> {
    match chunk {
        ChunkModel::TextDelta(s) => s,
        ChunkModel::ToolStart { name, input, .. } => "\n  \x1b[33m\u{26a1} "@ + name + "\x1b[0m "@
            + chat::preview(input),
        ChunkModel::ToolEnd { result, .. } => if result.is_error {
            "  \x1b[31m\u{2717}\x1b[0m\n"@
        } else {
            "  \x1b[32m\u{2713}\x1b[0m\n"@
        },
        ChunkModel::Error(e) => "\x1b[31mError: "@ + e + "\x1b[0m\n"@,
        ChunkModel::Done => "\n"@,
        _ => seq![],
    }
}

/// Whether a piece of output can be printed.
pub open spec fn printable(chunk: ChunkModel) -> bool {
    match chunk {
        ChunkModel::ToolStart { input, .. } => chat::previews(input),
        _ => true,
    }
}

/// What is printed of a piece of output.
pub fn chunk_to_one_liner(chunk: &OutputChunk) -> (r: String)
    requires
        printable(chunk@),
    ensures
        r@ == printed(chunk@),
{
    match chunk {
        OutputChunk::TextDelta(s) => s.clone(),
        OutputChunk::ToolStart { id: _, name, input } => text::cat4(
            "\n  \x1b[33m\u{26a1} ",
            name.as_str(),
            "\x1b[0m ",
            chat::tool_input_preview(input).as_str(),
        ),
        OutputChunk::ToolEnd { id: _, result } => if result.is_error {
            "  \x1b[31m\u{2717}\x1b[0m\n".to_string()
        } else {
            "  \x1b[32m\u{2713}\x1b[0m\n".to_string()
        },
        OutputChunk::Error(e) => text::cat3("\x1b[31mError: ", e.as_str(), "\x1b[0m\n"),
        OutputChunk::Done => "\n".to_string(),
        _ => {
            let r = String::new();
            assert(r@ =~= seq![]);
            r
        },
    }
}

/// Whether a piece of output can be printed.
pub fn can_print(chunk: &OutputChunk) -> (r: bool)
    ensures
        r == printable(chunk@),
{
    match chunk {
        OutputChunk::ToolStart { id: _, name: _, input } => chat::can_preview(input),
        _ => true,
    }
}

/// What is done with an event of the daemon.
pub enum EventStep {
    /// Something is printed; the answer goes on.
    Print(String),
    /// Something is printed; the answer is over.
    Finish(String),
    /// The user is asked some questions.
    Ask { request_id: String, questions: Vec<UserQuestionWire> },
    /// The daemon is gone; the program says so and ends.
    Gone { notice: String },
}

/// What is done with an event of the daemon.
pub enum StepModel {
    Print(Seq<char>),
    Finish(Seq<char>),
    Ask { request_id: Seq<char>, questions: Seq<QuestionModel> },
    Gone { notice: Seq<char> },
}

impl View for EventStep {
    type V = StepModel;

    open spec fn view(&self) -> StepModel {
        match self {
            EventStep::Print(s) => StepModel::Print(s@),
            EventStep::Finish(s) => StepModel::Finish(s@),
            EventStep::Ask { request_id, questions } => StepModel::Ask {
                request_id: request_id@,
                questions: Seq::new(questions@.len(), |i: int| questions@[i]@),
            },
            EventStep::Gone { notice } => StepModel::Gone { notice: notice@ },
        }
    }
}

/// What is done with an event; none means that the daemon is gone. The name of the
/// session is told once.
pub open spec fn event_step(first: bool, event: Option<EventModel>) -> StepModel {
    match event {
        None => StepModel::Gone { notice: "\n[omega-loop disconnected]\n"@ },
        Some(EventModel::Created { session_name, .. }) => StepModel::Print(
            if first {
                "Session: "@ + session_name + "\n"@
            } else {
                seq![]
            },
        ),
        Some(EventModel::Chunk { chunk, .. }) => match chunk {
            ChunkModel::AskUserQuestion { request_id, questions } => StepModel::Ask {
                request_id,
                questions,
            },
            ChunkModel::Done => StepModel::Finish(printed(chunk)),
            ChunkModel::Error(_) => StepModel::Finish(printed(chunk)),
            _ => StepModel::Print(printed(chunk)),
        },
        Some(EventModel::Unknown(_)) => StepModel::Print(seq![]),
    }
}

/// Whether the name of the session is still to be told.
pub open spec fn still_first(first: bool, event: Option<EventModel>) -> bool {
    match event {
        Some(EventModel::Created { .. }) => false,
        _ => first,
    }
}

/// Whether an event can be printed.
pub open spec fn event_printable(event: Option<EventModel>) -> bool {
    match event {
        Some(EventModel::Chunk { chunk, .. }) => printable(chunk),
        _ => true,
    }
}

/// An event, where there is one.
pub open spec fn opt_event(event: Option<ServerEvent>) -> Option<EventModel> {
    match event {
        Some(e) => Some(e@),
        None => None,
    }
}

/// What is done with an event of the daemon.
pub fn on_event(first: &mut bool, event: Option<ServerEvent>) -> (r: EventStep)
    requires
        event_printable(opt_event(event)),
    ensures
        r@ == event_step(*old(first), opt_event(event)),
        *final(first) == still_first(*old(first), opt_event(event)),
{
    match event {
        None => EventStep::Gone { notice: "\n[omega-loop disconnected]\n".to_string() },
        Some(ServerEvent::Created { session_id: _, session_name }) => {
            if *first {
                *first = false;
                EventStep::Print(text::cat3("Session: ", session_name.as_str(), "\n"))
            } else {
                let r = EventStep::Print(String::new());
                assert(r@->Print_0 =~= seq![]);
                r
            }
        },
        Some(ServerEvent::Chunk { session_id: _, chunk }) => {
            if let OutputChunk::AskUserQuestion { request_id, questions } = chunk {
                let r = EventStep::Ask { request_id, questions };
                assert(r@ == event_step(*old(first), opt_event(event)));
                r
            } else {
                let over = matches!(&chunk, OutputChunk::Done | OutputChunk::Error(_));
                let s = chunk_to_one_liner(&chunk);
                if over {
                    EventStep::Finish(s)
                } else {
                    EventStep::Print(s)
                }
            }
        },
        Some(ServerEvent::Unknown(_)) => {
            let r = EventStep::Print(String::new());
            assert(r@->Print_0 =~= seq![]);
            r
        },
    }
}

/// Whether an event can be printed.
pub fn can_show(event: &Option<ServerEvent>) -> (r: bool)
    ensures
        r == event_printable(opt_event(*event)),
{
    match event {
        Some(ServerEvent::Chunk { session_id: _, chunk }) => can_print(chunk),
        _ => true,
    }
}

// ---------------------------------------------------------------------------
// Questions
// ---------------------------------------------------------------------------

/// An answer that a question offers, as it is printed.
pub open spec fn option_line(i: int, o: OptionModel) -> Seq<char> {
    "  "@ + text::decimal((i + 1) as nat) + ". "@ + o.label + " \u{2014} "@ + o.description + "\n"@
}

/// The first answers that a question offers, as they are printed.
pub open spec fn option_lines(options: Seq<OptionModel>) -> Seq<char>
    decreases options.len(),
{
    if options.len() == 0 {
        seq![]
    } else {
        option_lines(options.drop_last()) + option_line(options.len() - 1, options.last())
    }
}

/// A question and the answers that it offers, as they are printed.
pub open spec fn question_text(q: QuestionModel) -> Seq<char> {
    "\n\x1b[36m"@ + q.header + "\x1b[0m\n"@ + q.question + "\n"@ + option_lines(q.options)
        + "Answer (number): "@
}

/// A question and the answers that it offers, as they are printed.
pub fn ask(q: &UserQuestionWire) -> (r: String)
    ensures
        r@ == question_text(q@),
{
    let ghost options = q@.options;
    let mut lines = String::new();
    let mut i: usize = 0;
    assert(lines@ =~= option_lines(options.take(0)));
    while i < q.options.len()
        invariant
            i <= q.options.len(),
            options == q@.options,
            lines@ == option_lines(options.take(i as int)),
        decreases q.options.len() - i,
    {
        let o = &q.options[i];
        let left = text::cat4(
            "  ",
            text::number(i as u64 + 1).as_str(),
            ". ",
            o.label.as_str(),
        );
        let row = text::cat4(left.as_str(), " \u{2014} ", o.description.as_str(), "\n");
        proof {
            assert(options.take(i + 1).drop_last() =~= options.take(i as int));
            assert(options.take(i + 1).last() == o@);
            assert(row@ =~= option_line(i as int, o@));
        }
        lines = text::cat2(lines.as_str(), row.as_str());
        i += 1;
    }
    assert(options.take(i as int) =~= options);
    let head = text::cat5("\n\x1b[36m", q.header.as_str(), "\x1b[0m\n", q.question.as_str(), "\n");
    let r = text::cat3(head.as_str(), lines.as_str(), "Answer (number): ");
    assert(r@ =~= question_text(q@));
    r
}

/// The answer that a line chooses by its number; nothing, where it chooses none.
pub open spec fn chosen(q: QuestionModel, line: Seq<char>) -> Seq<char> {
    match text::parsed(text::trimmed(line), usize::MAX as nat) {
        Some(n) => if 1 <= n <= q.options.len() {
            q.options[n - 1].label
        } else {
            seq![]
        },
        None => seq![],
    }
}

/// The answer that a line chooses by its number.
pub fn choose_option(q: &UserQuestionWire, line: &str) -> (r: String)
    ensures
        r@ == chosen(q@, line@),
{
    let none = String::new();
    assert(none@ =~= seq![]);
    match text::parse_number(text::trim(line).as_str(), usize::MAX as u64) {
        Some(n) => {
            if n >= 1 && n <= q.options.len() as u64 {
                let at: usize = (n - 1) as usize;
                assert(q@.options[at as int] == q.options@[at as int]@);
                q.options[at].label.clone()
            } else {
                none
            }
        },
        None => none,
    }
}

/// Takes an answer to a question in.
pub fn take_answer(answers: &mut Vec<(String, String)>, q: &UserQuestionWire, line: &str)
    ensures
        answers::answer_views(final(answers)@) == answers::with_answer(
            answers::answer_views(old(answers)@),
            q@.header,
            chosen(q@, line@),
        ),
{
    let label = choose_option(q, line);
    answers::put_answer(answers, q.header.as_str(), label.as_str());
}

// ---------------------------------------------------------------------------
// Laws
// ---------------------------------------------------------------------------

/// The number before each answer that is offered chooses it.
pub proof fn listed_numbers_choose(q: QuestionModel, i: int)
    requires
        0 <= i < q.options.len(),
        i < usize::MAX,
    ensures
        chosen(q, text::decimal((i + 1) as nat)) == q.options[i].label,
{
    text::numbers_need_no_trimming((i + 1) as nat);
    text::numbers_read_back((i + 1) as nat, usize::MAX as nat);
}

/// The name of the session is told at most once.
pub proof fn the_session_is_told_once(a: EventModel, b: EventModel)
    requires
        a is Created,
        b is Created,
    ensures
        event_step(still_first(true, Some(a)), Some(b)) == StepModel::Print(seq![]),
{
}

/// What the agent streams is printed as it comes; an error is printed with what it says; a
/// tool is printed with its name, and its end with a mark for whether it did what it should.
pub proof fn output_is_printed(
    session_id: Seq<char>,
    s: Seq<char>,
    id: Seq<char>,
    name: Seq<char>,
    result: ResultModel,
    first: bool,
)
    ensures
        ({
            let step = |chunk: ChunkModel|
                event_step(first, Some(EventModel::Chunk { session_id, chunk }));
            &&& step(ChunkModel::TextDelta(s)) == StepModel::Print(s)
            &&& step(ChunkModel::Error(s)) == StepModel::Finish(
                "\x1b[31mError: "@ + s + "\x1b[0m\n"@,
            )
            &&& step(ChunkModel::Done) == StepModel::Finish("\n"@)
            &&& step(ChunkModel::ToolStart { id, name, input: JsonTree::Null })
                == StepModel::Print("\n  \x1b[33m\u{26a1} "@ + name + "\x1b[0m "@)
            &&& step(ChunkModel::ToolEnd { id, result }) == StepModel::Print(
                if result.is_error {
                    "  \x1b[31m\u{2717}\x1b[0m\n"@
                } else {
                    "  \x1b[32m\u{2713}\x1b[0m\n"@
                },
            )
        }),
{
    let head = "\n  \x1b[33m\u{26a1} "@ + name + "\x1b[0m "@;
    assert(chat::preview(JsonTree::Null) =~= Seq::<char>::empty());
    assert(head + Seq::<char>::empty() =~= head);
}

/// Questions of the agent are put to the user as they came.
pub proof fn questions_are_asked(
    session_id: Seq<char>,
    request_id: Seq<char>,
    questions: Seq<QuestionModel>,
    first: bool,
)
    ensures
        event_step(
            first,
            Some(
                EventModel::Chunk {
                    session_id,
                    chunk: ChunkModel::AskUserQuestion { request_id, questions },
                },
            ),
        ) == (StepModel::Ask { request_id, questions }),
{
}

/// The name of the session is told at first, and the program ends where the daemon is gone.
pub proof fn the_session_is_told(session_id: Seq<char>, session_name: Seq<char>)
    ensures
        event_step(true, Some(EventModel::Created { session_id, session_name }))
            == StepModel::Print("Session: "@ + session_name + "\n"@),
        event_step(true, None) is Gone,
        event_step(false, None) is Gone,
{
}

/// A question is printed with its header, itself and each answer that it offers, behind the
/// number that chooses it.
pub proof fn offers_are_printed(options: Seq<OptionModel>, o: OptionModel)
    ensures
        option_lines(options.push(o)) == option_lines(options) + ("  "@ + text::decimal(
            (options.len() + 1) as nat,
        ) + ". "@ + o.label + " \u{2014} "@ + o.description + "\n"@),
        option_lines(Seq::empty()).len() == 0,
{
    assert(options.push(o).drop_last() =~= options);
}

/// A line that is no number of an answer chooses none.
pub proof fn other_numbers_choose_nothing(q: QuestionModel, n: nat)
    requires
        n == 0 || n > q.options.len(),
        n <= usize::MAX,
    ensures
        chosen(q, text::decimal(n)).len() == 0,
{
    text::numbers_need_no_trimming(n);
    text::numbers_read_back(n, usize::MAX as nat);
}

/// A question is printed with its heading, what is asked and the offers, and then the user is
/// asked for a number; that the agent is gone is told.
pub proof fn questions_are_printed(q: QuestionModel, first: bool)
    ensures
        question_text(q) == "\n\x1b[36m"@ + q.header + "\x1b[0m\n"@ + q.question + "\n"@
            + option_lines(q.options) + "Answer (number): "@,
        event_step(first, None) == (StepModel::Gone {
            notice: "\n[omega-loop disconnected]\n"@,
        }),
{
}

/// A flag is found wherever it stands among the arguments.
pub proof fn flags_are_found(args: Seq<Seq<char>>, flag: Seq<char>, rest: Seq<Seq<char>>)
    ensures
        has_flag(args + seq![flag] + rest, flag),
        (forall|i: int| 0 <= i < args.len() ==> #[trigger] args[i] != flag) ==> !has_flag(
            args,
            flag,
        ),
{
    let all = args + seq![flag] + rest;
    assert(all[args.len() as int] == flag);
}

} // verus!
