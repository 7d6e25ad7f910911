//! The slash commands of the chat client.

use vstd::prelude::*;

use crate::text;

verus! {

/// A command: its name, what it takes, and what it does.
#[derive(Clone, Copy)]
pub struct CommandDef {
    pub name: &'static str,
    pub args: &'static str,
    pub desc: &'static str,
}

/// A command: its name, what it takes, and what it does.
pub struct DefModel {
    pub name: Seq<char>,
    pub args: Seq<char>,
    pub desc: Seq<char>,
}

impl View for CommandDef {
    type V = DefModel;

    open spec fn view(&self) -> DefModel {
        DefModel { name: self.name@, args: self.args@, desc: self.desc@ }
    }
}

/// The commands.
pub open spec fn command_defs() -> Seq<DefModel> {
    seq![
        DefModel { name: "/new"@, args: ""@, desc: "Start a new session"@ },
        DefModel { name: "/resume"@, args: "[id]"@, desc: "Resume an existing session"@ },
        DefModel { name: "/model"@, args: "<name>"@, desc: "Change the LLM model"@ },
        DefModel { name: "/compact"@, args: ""@, desc: "Compact the current session"@ },
        DefModel { name: "/help"@, args: ""@, desc: "Show this help"@ },
        DefModel { name: "/quit"@, args: ""@, desc: "Quit the program"@ },
    ]
}

/// The commands in a list.
pub open spec fn def_views(v: Seq<CommandDef>) -> Seq<DefModel> {
    Seq::new(v.len(), |i: int| v[i]@)
}

/// The commands.
pub fn commands() -> (r: Vec<CommandDef>)
    ensures
        def_views(r@) == command_defs(),
{
    let r = vec![
        CommandDef { name: "/new", args: "", desc: "Start a new session" },
        CommandDef { name: "/resume", args: "[id]", desc: "Resume an existing session" },
        CommandDef { name: "/model", args: "<name>", desc: "Change the LLM model" },
        CommandDef { name: "/compact", args: "", desc: "Compact the current session" },
        CommandDef { name: "/help", args: "", desc: "Show this help" },
        CommandDef { name: "/quit", args: "", desc: "Quit the program" },
    ];
    assert(def_views(r@) =~= command_defs());
    r
}

/// The commands of a list that begin with a text, each with its place.
pub open spec fn matches_in(defs: Seq<DefModel>, lower: Seq<char>) -> Seq<(usize, DefModel)>
    decreases defs.len(),
{
    if defs.len() == 0 {
        seq![]
    } else if text::begins_with(defs.last().name, lower) {
        matches_in(defs.drop_last(), lower).push(((defs.len() - 1) as usize, defs.last()))
    } else {
        matches_in(defs.drop_last(), lower)
    }
}

/// The matches in a list.
pub open spec fn match_views(v: Seq<(usize, CommandDef)>) -> Seq<(usize, DefModel)> {
    Seq::new(v.len(), |i: int| (v[i].0, v[i].1@))
}

/// The commands that begin with a text in lower case, each with its place.
pub fn matching_lower(lower: &str) -> (r: Vec<(usize, CommandDef)>)
    ensures
        match_views(r@) == matches_in(command_defs(), lower@),
{
    let defs = commands();
    let mut r: Vec<(usize, CommandDef)> = Vec::new();
    let mut i: usize = 0;
    assert(match_views(r@) =~= matches_in(command_defs().take(0), lower@));
    while i < defs.len()
        invariant
            i <= defs.len(),
            def_views(defs@) == command_defs(),
            match_views(r@) == matches_in(command_defs().take(i as int), lower@),
        decreases defs.len() - i,
    {
        let ghost was = match_views(r@);
        let ghost next = command_defs().take(i + 1);
        assert(next.drop_last() =~= command_defs().take(i as int));
        assert(next.last() == defs@[i as int]@);
        let def = defs[i];
        if text::starts_with(def.name, lower) {
            r.push((i, def));
            assert(match_views(r@) =~= was.push((i, def@)));
        }
        i += 1;
    }
    assert(command_defs().take(i as int) =~= command_defs());
    r
}

/// The commands that an input may mean.
pub open spec fn matches_of(input: Seq<char>) -> Seq<(usize, DefModel)> {
    if input.len() > 0 && input[0] == '/' {
        matches_in(command_defs(), text::lowercase(input))
    } else {
        seq![]
    }
}

/// The commands that an input may mean: those that begin with it, in whatever
/// case it is written. An input that does not begin with a slash means none.
pub fn matching_commands(input: &str) -> (r: Vec<(usize, CommandDef)>)
    ensures
        match_views(r@) == matches_of(input@),
{
    if !text::starts_with_char(input, '/') {
        let r: Vec<(usize, CommandDef)> = Vec::new();
        assert(match_views(r@) =~= seq![]);
        return r;
    }
    let lower = text::to_lower(input);
    matching_lower(lower.as_str())
}

/// A command as it is written, with what it takes.
pub open spec fn written(def: DefModel) -> Seq<char> {
    if def.args.len() == 0 {
        def.name
    } else {
        def.name + " "@ + def.args
    }
}

/// A command as it is written.
pub fn format_command(cmd: &CommandDef) -> (r: String)
    ensures
        r@ == written(cmd@),
{
    if cmd.args.is_empty() {
        cmd.name.to_owned()
    } else {
        text::cat3(cmd.name, " ", cmd.args)
    }
}

/// Every command begins with a slash and says what it does, and no two
/// commands have the same name.
pub proof fn commands_are_consistent()
    ensures
        forall|i: int|
            0 <= i < command_defs().len() ==> {
                let d = #[trigger] command_defs()[i];
                d.name.len() > 0 && d.name[0] == '/' && d.desc.len() > 0
            },
        forall|i: int, j: int|
            0 <= i < j < command_defs().len() ==> (#[trigger] command_defs()[i]).name != (
            #[trigger] command_defs()[j]).name,
{
    reveal_strlit("/new");
    reveal_strlit("/resume");
    reveal_strlit("/model");
    reveal_strlit("/compact");
    reveal_strlit("/help");
    reveal_strlit("/quit");
    reveal_strlit("Start a new session");
    reveal_strlit("Resume an existing session");
    reveal_strlit("Change the LLM model");
    reveal_strlit("Compact the current session");
    reveal_strlit("Show this help");
    reveal_strlit("Quit the program");
    assert("/help"@[1] == 'h' && "/quit"@[1] == 'q');
    let d = command_defs();
    assert(d[0].name.len() == 4 && d[1].name.len() == 7 && d[2].name.len() == 6
        && d[3].name.len() == 8 && d[4].name.len() == 5 && d[5].name.len() == 5);
    assert(d[4].name != d[5].name);
}

/// A lone slash means every command.
pub proof fn slash_means_every_command(defs: Seq<DefModel>)
    requires
        forall|i: int|
            0 <= i < defs.len() ==> (#[trigger] defs[i]).name.len() > 0 && defs[i].name[0] == '/',
    ensures
        matches_in(defs, seq!['/']).len() == defs.len(),
    decreases defs.len(),
{
    if defs.len() > 0 {
        let rest = defs.drop_last();
        assert forall|i: int| 0 <= i < rest.len() implies (#[trigger] rest[i]).name.len() > 0
            && rest[i].name[0] == '/' by {
            assert(rest[i] == defs[i]);
        }
        slash_means_every_command(rest);
        let name = defs[defs.len() - 1].name;
        assert(name.subrange(0, 1) =~= seq!['/']);
    }
}

// ---------------------------------------------------------------------------
// Laws
// ---------------------------------------------------------------------------

/// What is typed finds the commands whose name begins so, each with its place, in the order
/// of the list, and no others.
pub proof fn commands_are_found_by_their_beginning(
    defs: Seq<DefModel>,
    def: DefModel,
    lower: Seq<char>,
)
    requires
        defs.len() < usize::MAX,
    ensures
        matches_in(Seq::<DefModel>::empty(), lower).len() == 0,
        (lower.len() <= def.name.len() && def.name.take(lower.len() as int) == lower)
            ==> matches_in(defs.push(def), lower) == matches_in(defs, lower).push(
            (defs.len() as usize, def),
        ),
        !(lower.len() <= def.name.len() && def.name.take(lower.len() as int) == lower)
            ==> matches_in(defs.push(def), lower) == matches_in(defs, lower),
{
    assert(defs.push(def).drop_last() =~= defs);
    if lower.len() <= def.name.len() {
        assert(def.name.take(lower.len() as int) =~= def.name.subrange(0, lower.len() as int));
    }
}

/// Only what begins with a slash finds commands.
pub proof fn commands_begin_with_a_slash(input: Seq<char>)
    ensures
        input.len() == 0 || input[0] != '/' ==> matches_of(input).len() == 0,
        input.len() > 0 && input[0] == '/' ==> matches_of(input) == matches_in(
            command_defs(),
            text::lowercase(input),
        ),
{
}

/// The commands of the chat, each with what goes with it and what it does.
pub proof fn the_chat_has_its_commands()
    ensures
        command_defs().len() == 6,
        command_defs() == seq![
            DefModel { name: "/new"@, args: ""@, desc: "Start a new session"@ },
            DefModel { name: "/resume"@, args: "[id]"@, desc: "Resume an existing session"@ },
            DefModel { name: "/model"@, args: "<name>"@, desc: "Change the LLM model"@ },
            DefModel { name: "/compact"@, args: ""@, desc: "Compact the current session"@ },
            DefModel { name: "/help"@, args: ""@, desc: "Show this help"@ },
            DefModel { name: "/quit"@, args: ""@, desc: "Quit the program"@ },
        ],
{
}

/// A command is written with what goes with it behind a blank, or alone.
pub proof fn commands_are_written_with_their_arguments(def: DefModel)
    ensures
        def.args.len() == 0 ==> written(def) == def.name,
        def.args.len() > 0 ==> written(def) == def.name + " "@ + def.args,
{
}

} // verus!
