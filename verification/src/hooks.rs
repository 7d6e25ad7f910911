//! Hooks: what looks at the steps of an agent, and may stop them.

use regex::Regex;
use vstd::prelude::*;

use crate::json::Json;

verus! {

// ---------------------------------------------------------------------------
// Patterns
// ---------------------------------------------------------------------------

/// A compiled regular expression.
#[verifier::external_type_specification]
#[verifier::external_body]
pub struct ExRegex(Regex);

/// Why a regular expression did not compile.
#[verifier::external_type_specification]
#[verifier::external_body]
pub struct ExRegexError(regex::Error);

/// What a regular expression was compiled from: its pattern, with the flags that it
/// was built with.
pub uninterp spec fn source(r: Regex) -> Seq<char>;

/// Whether what was compiled from a pattern matches somewhere in a text, as
/// `Regex::is_match` says.
pub uninterp spec fn found(pattern: Seq<char>, s: Seq<char>) -> bool;

/// What an error says, as its `Display` writes it.
pub uninterp spec fn words_of(e: regex::Error) -> Seq<char>;

/// Compiles a regular expression by `Regex::new`. What comes out was compiled from
/// the given text, without flags of its own. When it fails is left open: one of the reasons is the size of
/// the compiled program, which depends on the machine.
#[verifier::external_body]
fn compile(pattern: &str) -> (r: Result<Regex, regex::Error>)
    ensures
        r matches Ok(re) ==> source(re) == pattern@,
{
    Regex::new(pattern)
}

/// Searches a text by `Regex::is_match`. The answer depends on the text that the
/// expression was compiled from, and on the text it is searched in.
#[verifier::external_body]
fn is_match(r: &Regex, s: &str) -> (b: bool)
    ensures
        b == found(source(*r), s@),
{
    r.is_match(s)
}

/// What `regex::Error` says, by its `Display`: the words depend on the error alone.
#[verifier::external_body]
fn error_text(e: &regex::Error) -> (r: String)
    ensures
        r@ == words_of(*e),
{
    format!("{}", e)
}

/// A pattern that is no regular expression, and why.
#[derive(Debug)]
pub struct PatternError {
    pub message: String,
}

impl PatternError {
    /// Whether the message is what some error of `regex` says.
    pub open spec fn tells_why(self) -> bool {
        exists|e: regex::Error| self.message@ == #[trigger] words_of(e)
    }
}

// ---------------------------------------------------------------------------
// Results
// ---------------------------------------------------------------------------

/// What a hook decides.
#[derive(Debug, Clone, Copy, PartialEq, Eq, Structural)]
pub enum PermissionDecision {
    Allow,
    Deny,
    Ask,
}

/// What a hook says: a decision, or none, and why.
#[derive(Debug)]
pub struct HookResult {
    pub decision: Option<PermissionDecision>,
    pub reason: Option<String>,
}

/// A result that says nothing.
pub open spec fn no_result() -> HookResult {
    HookResult { decision: None, reason: None }
}

impl HookResult {
    /// No decision.
    pub fn none() -> (r: HookResult)
        ensures
            r == no_result(),
    {
        HookResult { decision: None, reason: None }
    }

    /// A yes.
    pub fn allow() -> (r: HookResult)
        ensures
            r == (HookResult { decision: Some(PermissionDecision::Allow), reason: None }),
    {
        HookResult { decision: Some(PermissionDecision::Allow), reason: None }
    }

    /// A no, and why.
    pub fn deny(reason: &str) -> (r: HookResult)
        ensures
            r.decision == Some(PermissionDecision::Deny),
            r.reason matches Some(s) && s@ == reason@,
    {
        HookResult {
            decision: Some(PermissionDecision::Deny),
            reason: Some(reason.to_string()),
        }
    }

    /// The user decides.
    pub fn ask() -> (r: HookResult)
        ensures
            r == (HookResult { decision: Some(PermissionDecision::Ask), reason: None }),
    {
        HookResult { decision: Some(PermissionDecision::Ask), reason: None }
    }
}

/// How much a decision weighs: a no more than a yes, a yes more than a question,
/// a question more than nothing.
pub open spec fn weight(d: Option<PermissionDecision>) -> nat {
    match d {
        Some(PermissionDecision::Deny) => 3,
        Some(PermissionDecision::Allow) => 2,
        Some(PermissionDecision::Ask) => 1,
        None => 0,
    }
}

/// Two results as one: the weightier one, and of two that weigh the same the
/// first. Nothing and nothing is nothing, whatever the reasons.
pub open spec fn combined(a: HookResult, b: HookResult) -> HookResult {
    if weight(a.decision) == 0 && weight(b.decision) == 0 {
        no_result()
    } else if weight(a.decision) >= weight(b.decision) {
        a
    } else {
        b
    }
}

/// Two results as one.
pub fn combine_results(a: HookResult, b: HookResult) -> (r: HookResult)
    ensures
        r == combined(a, b),
{
    match (a.decision, b.decision) {
        (Some(PermissionDecision::Deny), _) => a,
        (_, Some(PermissionDecision::Deny)) => b,
        (Some(PermissionDecision::Allow), _) => a,
        (_, Some(PermissionDecision::Allow)) => b,
        (Some(PermissionDecision::Ask), _) => a,
        (_, Some(PermissionDecision::Ask)) => b,
        _ => HookResult::none(),
    }
}

// ---------------------------------------------------------------------------
// Hooks
// ---------------------------------------------------------------------------

/// A step of an agent.
#[derive(Debug, Clone, Copy, PartialEq, Eq, Structural)]
pub enum HookEvent {
    /// A tool is about to be used.
    PreToolUse,
    /// A tool was used.
    PostToolUse,
    /// A tool was used and failed.
    PostToolUseFailure,
    /// The user said something.
    UserPromptSubmit,
}

/// What a hook sees of a step, and may change.
pub struct HookContext {
    pub event: HookEvent,
    pub tool_name: Option<String>,
    pub tool_input: Option<Json>,
    /// Whether the first no ends the round.
    pub short_circuit_on_deny: bool,
}

/// Something that looks at a step.
pub trait Hook {
    /// Whether it takes a step.
    spec fn takes(&self, ctx: HookContext) -> bool;

    /// Whether it may turn a step into another and say something.
    spec fn may_say(&self, before: HookContext, after: HookContext, r: HookResult) -> bool;

    /// Looks at a step.
    fn call(&self, ctx: &mut HookContext) -> (r: HookResult)
        requires
            self.takes(*old(ctx)),
        ensures
            self.may_say(*old(ctx), *final(ctx), r),
    ;
}

/// A function is a hook. What it says is what the function may give; what it does
/// to the step is left open.
impl<F: Fn(&mut HookContext) -> HookResult> Hook for F {
    open spec fn takes(&self, ctx: HookContext) -> bool {
        forall|c: &mut HookContext| *c == ctx ==> #[trigger] call_requires(*self, (c,))
    }

    open spec fn may_say(&self, before: HookContext, after: HookContext, r: HookResult) -> bool {
        exists|c: &mut HookContext| *c == before && #[trigger] call_ensures(*self, (c,), r)
    }

    fn call(&self, ctx: &mut HookContext) -> (r: HookResult) {
        (self)(ctx)
    }
}

/// A hook, and the tools it is for.
pub struct HookMatcher<H> {
    pattern: Option<Regex>,
    hook: H,
}

impl<H> HookMatcher<H> {
    /// The pattern for the names of tools, where there is one.
    pub closed spec fn pattern(&self) -> Option<Seq<char>> {
        match self.pattern {
            Some(r) => Some(source(r)),
            None => None,
        }
    }

    /// The hook.
    pub closed spec fn hook(&self) -> H {
        self.hook
    }

    /// Whether the hook is for a tool.
    pub open spec fn is_for(&self, tool_name: Seq<char>) -> bool {
        match self.pattern() {
            Some(p) => found(p, tool_name),
            None => true,
        }
    }

    /// A hook for all tools.
    pub fn new(hook: H) -> (r: HookMatcher<H>)
        ensures
            r.pattern() is None,
            r.hook() == hook,
    {
        HookMatcher { pattern: None, hook }
    }

    /// A hook for the tools whose names a regular expression matches.
    pub fn with_pattern(pattern: &str, hook: H) -> (r: Result<HookMatcher<H>, PatternError>)
        ensures
            match r {
                Ok(m) => m.pattern() == Some(pattern@) && m.hook() == hook,
                Err(p) => p.tells_why(),
            },
    {
        HookMatcher::with_compiled(compile(pattern), hook)
    }

    /// A hook for the tools whose names a compiled regular expression matches,
    /// where it was compiled.
    pub fn with_compiled(compiled: Result<Regex, regex::Error>, hook: H) -> (r: Result<
        HookMatcher<H>,
        PatternError,
    >)
        ensures
            match (compiled, r) {
                (Ok(re), Ok(m)) => m.pattern() == Some(source(re)) && m.hook() == hook,
                (Err(e), Err(p)) => p.message@ == words_of(e),
                _ => false,
            },
    {
        match compiled {
            Ok(re) => Ok(HookMatcher { pattern: Some(re), hook }),
            Err(e) => Err(PatternError { message: error_text(&e) }),
        }
    }

    /// Whether the hook is for a tool.
    pub fn matches(&self, tool_name: &str) -> (r: bool)
        ensures
            r == self.is_for(tool_name@),
    {
        match &self.pattern {
            Some(re) => is_match(re, tool_name),
            None => true,
        }
    }
}

impl<H: Hook> HookMatcher<H> {
    /// Has the hook look at a step.
    pub fn run(&self, ctx: &mut HookContext) -> (r: HookResult)
        requires
            self.hook().takes(*old(ctx)),
        ensures
            self.hook().may_say(*old(ctx), *final(ctx), r),
    {
        self.hook.call(ctx)
    }
}

// ---------------------------------------------------------------------------
// The registry
// ---------------------------------------------------------------------------

/// The hooks of an agent, each with the steps it looks at.
pub struct HookRegistry<H> {
    hooks: Vec<(HookEvent, HookMatcher<H>)>,
}

/// The hooks for a kind of step, in order.
pub open spec fn hooks_for<H>(all: Seq<(HookEvent, HookMatcher<H>)>, event: HookEvent) -> Seq<
    HookMatcher<H>,
>
    decreases all.len(),
{
    if all.len() == 0 {
        seq![]
    } else {
        let before = hooks_for(all.drop_last(), event);
        if all.last().0 == event {
            before.push(all.last().1)
        } else {
            before
        }
    }
}

/// Whether a step has to do with a tool.
pub open spec fn about_tools(event: HookEvent) -> bool {
    event is PreToolUse || event is PostToolUse || event is PostToolUseFailure
}

/// Whether a hook looks at a step: at one that has to do with a tool it looks only
/// if it is for that tool.
pub open spec fn looks<H>(m: HookMatcher<H>, event: HookEvent, tool_name: Option<Seq<char>>) -> bool {
    match tool_name {
        Some(name) => about_tools(event) ==> m.is_for(name),
        None => true,
    }
}

/// Whether a round is over before its end: a no was said, and the first no ends
/// it.
pub open spec fn over(short: bool, r: HookResult) -> bool {
    short && r.decision == Some(PermissionDecision::Deny)
}

/// A step under way: what is known of it when a round begins.
pub struct Round {
    pub event: HookEvent,
    pub tool_name: Option<Seq<char>>,
    pub short: bool,
}

/// The round that a step begins.
pub open spec fn round_of(ctx: HookContext) -> Round {
    Round {
        event: ctx.event,
        tool_name: match ctx.tool_name {
            Some(name) => Some(name@),
            None => None,
        },
        short: ctx.short_circuit_on_deny,
    }
}

/// Whether one hook may lead from a step and what was said to another step and
/// what is then said.
pub open spec fn may_go_on<H: Hook>(
    m: HookMatcher<H>,
    round: Round,
    c: HookContext,
    q: HookResult,
    c2: HookContext,
    r: HookResult,
) -> bool {
    if over(round.short, q) || !looks(m, round.event, round.tool_name) {
        c2 == c && r == q
    } else {
        exists|x: HookResult| #[trigger] m.hook().may_say(c, c2, x) && r == combined(q, x)
    }
}

/// Whether a round of hooks may lead from a step to another, and what is then
/// said.
pub open spec fn may_end<H: Hook>(
    hooks: Seq<HookMatcher<H>>,
    round: Round,
    before: HookContext,
    after: HookContext,
    r: HookResult,
) -> bool
    decreases hooks.len(),
{
    if hooks.len() == 0 {
        after == before && r == no_result()
    } else {
        exists|c: HookContext, q: HookResult|
            may_end(hooks.drop_last(), round, before, c, q) && #[trigger] may_go_on(
                hooks.last(),
                round,
                c,
                q,
                after,
                r,
            )
    }
}

impl<H> Default for HookRegistry<H> {
    fn default() -> (r: HookRegistry<H>)
        ensures
            r@ == Seq::<(HookEvent, HookMatcher<H>)>::empty(),
    {
        HookRegistry::new()
    }
}

impl<H> HookRegistry<H> {
    /// The hooks, each with the steps it looks at, in the order they were added.
    pub closed spec fn view(&self) -> Seq<(HookEvent, HookMatcher<H>)> {
        self.hooks@
    }

    /// No hooks.
    pub fn new() -> (r: HookRegistry<H>)
        ensures
            r@ == Seq::<(HookEvent, HookMatcher<H>)>::empty(),
    {
        HookRegistry { hooks: Vec::new() }
    }

    /// Adds a hook for all tools.
    pub fn add(&mut self, event: HookEvent, hook: H)
        ensures
            final(self)@.len() == old(self)@.len() + 1,
            final(self)@.drop_last() == old(self)@,
            final(self)@.last().0 == event,
            final(self)@.last().1.pattern() is None,
            final(self)@.last().1.hook() == hook,
    {
        self.hooks.push((event, HookMatcher::new(hook)));
        assert(self@.drop_last() =~= old(self)@);
    }

    /// Adds a hook for the tools whose names a regular expression matches. Where it
    /// is none, nothing is added.
    pub fn add_with_pattern(&mut self, event: HookEvent, pattern: &str, hook: H) -> (r: Result<
        (),
        PatternError,
    >)
        ensures
            match r {
                Ok(_) => {
                    &&& final(self)@.len() == old(self)@.len() + 1
                    &&& final(self)@.drop_last() == old(self)@
                    &&& final(self)@.last().0 == event
                    &&& final(self)@.last().1.pattern() == Some(pattern@)
                    &&& final(self)@.last().1.hook() == hook
                },
                Err(p) => final(self)@ == old(self)@ && p.tells_why(),
            },
    {
        self.add_compiled(event, compile(pattern), hook)
    }

    /// Adds a hook for the tools whose names a compiled regular expression matches,
    /// where it was compiled. Where it was not, nothing is added.
    pub fn add_compiled(
        &mut self,
        event: HookEvent,
        compiled: Result<Regex, regex::Error>,
        hook: H,
    ) -> (r: Result<(), PatternError>)
        ensures
            match (compiled, r) {
                (Ok(re), Ok(_)) => {
                    &&& final(self)@.len() == old(self)@.len() + 1
                    &&& final(self)@.drop_last() == old(self)@
                    &&& final(self)@.last().0 == event
                    &&& final(self)@.last().1.pattern() == Some(source(re))
                    &&& final(self)@.last().1.hook() == hook
                },
                (Err(e), Err(p)) => final(self)@ == old(self)@ && p.message@ == words_of(e),
                _ => false,
            },
    {
        match HookMatcher::with_compiled(compiled, hook) {
            Ok(m) => {
                self.add_matcher(event, m);
                assert(self@.drop_last() =~= old(self)@);
                Ok(())
            },
            Err(e) => Err(e),
        }
    }

    /// Adds a hook with the tools it is for.
    pub fn add_matcher(&mut self, event: HookEvent, matcher: HookMatcher<H>)
        ensures
            final(self)@ == old(self)@.push((event, matcher)),
    {
        self.hooks.push((event, matcher));
    }

    /// Whether there are hooks for a kind of step.
    pub fn has_hooks(&self, event: HookEvent) -> (r: bool)
        ensures
            r == (hooks_for(self@, event).len() > 0),
    {
        self.hook_count(event) > 0
    }

    /// How many hooks there are for a kind of step.
    pub fn hook_count(&self, event: HookEvent) -> (r: usize)
        ensures
            r == hooks_for(self@, event).len(),
    {
        let mut n: usize = 0;
        let mut i: usize = 0;
        while i < self.hooks.len()
            invariant
                i <= self.hooks.len(),
                n <= i,
                n == hooks_for(self@.take(i as int), event).len(),
            decreases self.hooks.len() - i,
        {
            proof {
                assert(self@.take(i + 1).drop_last() =~= self@.take(i as int));
            }
            if self.hooks[i].0 == event {
                n += 1;
            }
            i += 1;
        }
        assert(self@.take(i as int) =~= self@);
        n
    }
}

/// Whether hooks take whatever steps there are.
pub open spec fn ready<H: Hook>(all: Seq<(HookEvent, HookMatcher<H>)>) -> bool {
    forall|i: int, c: HookContext|
        0 <= i < all.len() ==> #[trigger] all[i].1.hook().takes(c)
}

impl<H: Hook> HookRegistry<H> {
    /// Has the hooks look at a step, one after the other, and says what they say
    /// together.
    pub fn run(&self, ctx: &mut HookContext) -> (r: HookResult)
        requires
            ready(self@),
        ensures
            may_end(
                hooks_for(self@, old(ctx).event),
                round_of(*old(ctx)),
                *old(ctx),
                *final(ctx),
                r,
            ),
    {
        let ghost start = *ctx;
        let ghost round = round_of(start);
        let event = ctx.event;
        let tool_name = match &ctx.tool_name {
            Some(name) => Some(name.clone()),
            None => None,
        };
        let short = ctx.short_circuit_on_deny;
        let mut said = HookResult::none();
        let mut i: usize = 0;
        while i < self.hooks.len()
            invariant
                i <= self.hooks.len(),
                ready(self@),
                round.event == event,
                round.tool_name == (match tool_name {
                    Some(name) => Some(name@),
                    None => None,
                }),
                round.short == short,
                may_end(hooks_for(self@.take(i as int), event), round, start, *ctx, said),
            decreases self.hooks.len() - i,
        {
            let ghost was = *ctx;
            let ghost q = said;
            let ghost here = hooks_for(self@.take(i + 1), event);
            proof {
                assert(self@.take(i + 1).drop_last() =~= self@.take(i as int));
                assert(self@.take(i + 1).last() == self@[i as int]);
            }
            if self.hooks[i].0 == event {
                let matcher = &self.hooks[i].1;
                proof {
                    assert(here.drop_last() =~= hooks_for(self@.take(i as int), event));
                    assert(here.last() == *matcher);
                }
                let denied = match said.decision {
                    Some(d) => d == PermissionDecision::Deny,
                    None => false,
                };
                let tool_event = match event {
                    HookEvent::PreToolUse
                    | HookEvent::PostToolUse
                    | HookEvent::PostToolUseFailure => true,
                    HookEvent::UserPromptSubmit => false,
                };
                let should_run = match &tool_name {
                    Some(name) => if tool_event {
                        matcher.matches(name.as_str())
                    } else {
                        true
                    },
                    None => true,
                };
                if !(short && denied) && should_run {
                    assert(self@[i as int].1.hook().takes(*ctx));
                    let result = matcher.run(ctx);
                    assert(matcher.hook().may_say(was, *ctx, result));
                    said = combine_results(said, result);
                }
                assert(may_go_on(here.last(), round, was, q, *ctx, said));
            }
            i += 1;
        }
        assert(self@.take(i as int) =~= self@);
        said
    }
}

// ---------------------------------------------------------------------------
// Laws
// ---------------------------------------------------------------------------

/// What two results decide together does not depend on their order, nor on how
/// more of them are grouped.
pub proof fn order_does_not_matter(a: HookResult, b: HookResult, c: HookResult)
    ensures
        combined(a, b).decision == combined(b, a).decision,
        combined(combined(a, b), c).decision == combined(a, combined(b, c)).decision,
{
}

/// A no wins over everything, a yes over all but a no, a question over nothing;
/// and the reason goes with the decision.
pub proof fn the_weightier_wins(a: HookResult, b: HookResult)
    ensures
        weight(a.decision) > weight(b.decision) ==> combined(a, b) == a && combined(b, a) == a,
        weight(combined(a, b).decision) >= weight(a.decision),
        weight(combined(a, b).decision) >= weight(b.decision),
{
}

/// Whether a hook says no to every step.
pub open spec fn always_denies<H: Hook>(hook: H) -> bool {
    forall|c: HookContext, c2: HookContext, r: HookResult| #[trigger]
        hook.may_say(c, c2, r) ==> r.decision == Some(PermissionDecision::Deny)
}

/// A hook that says no to every step cannot be got round by the others: a round in
/// which it looks ends with a no.
pub proof fn a_no_cannot_be_outvoted<H: Hook>(
    hooks: Seq<HookMatcher<H>>,
    round: Round,
    before: HookContext,
    after: HookContext,
    r: HookResult,
    i: int,
)
    requires
        0 <= i < hooks.len(),
        looks(hooks[i], round.event, round.tool_name),
        always_denies(hooks[i].hook()),
        may_end(hooks, round, before, after, r),
    ensures
        r.decision == Some(PermissionDecision::Deny),
    decreases hooks.len(),
{
    let (c, q) = choose|c: HookContext, q: HookResult|
        may_end(hooks.drop_last(), round, before, c, q) && #[trigger] may_go_on(
            hooks.last(),
            round,
            c,
            q,
            after,
            r,
        );
    if i < hooks.len() - 1 {
        a_no_cannot_be_outvoted(hooks.drop_last(), round, before, c, q, i);
    }
}

/// Where the first no ends a round, no hook after it looks: the step stays as it
/// was when the no was said, and so does what was said.
pub proof fn the_first_no_may_end_a_round<H: Hook>(
    hooks: Seq<HookMatcher<H>>,
    m: HookMatcher<H>,
    round: Round,
    before: HookContext,
    after: HookContext,
    r: HookResult,
)
    requires
        round.short,
        may_end(hooks, round, before, after, r),
        r.decision == Some(PermissionDecision::Deny),
    ensures
        may_end(hooks.push(m), round, before, after, r),
        forall|after2: HookContext, r2: HookResult|
            #[trigger] may_go_on(m, round, after, r, after2, r2) ==> after2 == after && r2 == r,
{
    assert(hooks.push(m).drop_last() =~= hooks);
    assert(hooks.push(m).last() == m);
    assert(may_go_on(hooks.push(m).last(), round, after, r, after, r));
}

/// A step for which there are no hooks stays as it is, and nothing is said.
pub proof fn no_hooks_say_nothing<H: Hook>(
    all: Seq<(HookEvent, HookMatcher<H>)>,
    before: HookContext,
    after: HookContext,
    r: HookResult,
)
    requires
        hooks_for(all, before.event).len() == 0,
        may_end(hooks_for(all, before.event), round_of(before), before, after, r),
    ensures
        after == before,
        r == no_result(),
{
}

/// A no counts whatever else is said; a yes counts unless someone says no; that the user is
/// to be asked counts unless someone has decided; who says nothing does not count.
pub proof fn decisions_are_weighed(a: HookResult, b: HookResult)
    ensures
        combined(a, b).decision == Some(PermissionDecision::Deny) <==> (a.decision == Some(
            PermissionDecision::Deny,
        ) || b.decision == Some(PermissionDecision::Deny)),
        combined(a, b).decision == Some(PermissionDecision::Allow) <==> (a.decision != Some(
            PermissionDecision::Deny,
        ) && b.decision != Some(PermissionDecision::Deny) && (a.decision == Some(
            PermissionDecision::Allow,
        ) || b.decision == Some(PermissionDecision::Allow))),
        combined(a, b).decision is None <==> (a.decision is None && b.decision is None),
        a.decision is Some && b.decision == a.decision ==> combined(a, b) == a,
        a.decision is Some && b.decision is None ==> combined(a, b) == a && combined(b, a) == a,
        a.decision is None && b.decision is None ==> combined(a, b).reason is None,
{
}

/// A hook with a pattern looks at the tools whose name has the pattern, and at what is not
/// about tools; a hook without one looks at everything.
pub proof fn patterns_choose_tools<H>(m: HookMatcher<H>, name: Seq<char>, event: HookEvent)
    ensures
        looks(m, HookEvent::UserPromptSubmit, Some(name)),
        looks(m, event, None),
        m.pattern() is None ==> looks(m, event, Some(name)),
        (m.pattern() matches Some(p) ==> {
            &&& looks(m, HookEvent::PreToolUse, Some(name)) == found(p, name)
            &&& looks(m, HookEvent::PostToolUse, Some(name)) == found(p, name)
            &&& looks(m, HookEvent::PostToolUseFailure, Some(name)) == found(p, name)
        }),
{
}

/// The hooks of an event are those that were added for it, in the order in which they were
/// added.
pub proof fn hooks_are_for_their_event<H>(
    all: Seq<(HookEvent, HookMatcher<H>)>,
    event: HookEvent,
    other: HookEvent,
    m: HookMatcher<H>,
)
    requires
        other != event,
    ensures
        hooks_for(Seq::<(HookEvent, HookMatcher<H>)>::empty(), event).len() == 0,
        hooks_for(all.push((event, m)), event) == hooks_for(all, event).push(m),
        hooks_for(all.push((other, m)), event) == hooks_for(all, event),
{
    assert(all.push((event, m)).drop_last() =~= all);
    assert(all.push((other, m)).drop_last() =~= all);
}

/// In a round each hook that looks is asked, and what it says is weighed with what was said
/// before; a hook that does not look changes nothing.
pub proof fn hooks_are_asked_in_turn<H: Hook>(
    hooks: Seq<HookMatcher<H>>,
    m: HookMatcher<H>,
    round: Round,
    before: HookContext,
    mid: HookContext,
    after: HookContext,
    q: HookResult,
    x: HookResult,
)
    requires
        may_end(hooks, round, before, mid, q),
        !(round.short && q.decision == Some(PermissionDecision::Deny)),
        m.hook().may_say(mid, after, x),
    ensures
        looks(m, round.event, round.tool_name) ==> may_end(
            hooks.push(m),
            round,
            before,
            after,
            combined(q, x),
        ),
        !looks(m, round.event, round.tool_name) ==> may_end(hooks.push(m), round, before, mid, q),
{
    assert(hooks.push(m).drop_last() =~= hooks);
    if looks(m, round.event, round.tool_name) {
        assert(may_go_on(hooks.push(m).last(), round, mid, q, after, combined(q, x)));
    } else {
        assert(may_go_on(hooks.push(m).last(), round, mid, q, mid, q));
    }
}

} // verus!
