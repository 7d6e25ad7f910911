//! Which tools an agent may use without asking.

use vstd::prelude::*;

use crate::text;

verus! {

// ---------------------------------------------------------------------------
// Rules
// ---------------------------------------------------------------------------

/// What a rule allows.
#[derive(Debug, Clone, Copy, PartialEq, Eq, Structural)]
pub enum RuleType {
    /// A tool, whatever its input.
    AllowTool,
    /// A tool whose input begins in a certain way.
    AllowPrefix,
}

/// A rule that allows something.
#[derive(Debug, Clone)]
pub struct PermissionRule {
    pub rule_type: RuleType,
    pub tool_name: String,
    pub prefix: Option<String>,
}

/// A rule that allows something.
pub struct RuleModel {
    pub rule_type: RuleType,
    pub tool_name: Seq<char>,
    pub prefix: Option<Seq<char>>,
}

impl View for PermissionRule {
    type V = RuleModel;

    open spec fn view(&self) -> RuleModel {
        RuleModel {
            rule_type: self.rule_type,
            tool_name: self.tool_name@,
            prefix: match self.prefix {
                Some(p) => Some(p@),
                None => None,
            },
        }
    }
}

/// The rules of a list.
pub open spec fn rule_views(v: Seq<PermissionRule>) -> Seq<RuleModel> {
    Seq::new(v.len(), |i: int| v[i]@)
}

/// Whether a rule allows a tool to be used with an input. Blanks before the input
/// do not count.
pub open spec fn rule_matches(rule: RuleModel, tool_name: Seq<char>, input: Seq<char>) -> bool {
    &&& rule.tool_name == tool_name
    &&& match rule.rule_type {
        RuleType::AllowTool => true,
        RuleType::AllowPrefix => match rule.prefix {
            Some(p) => text::begins_with(text::trimmed_start(input), p),
            None => false,
        },
    }
}

/// Whether one of some rules allows a tool to be used with an input.
pub open spec fn allowed_by(rules: Seq<RuleModel>, tool_name: Seq<char>, input: Seq<char>) -> bool {
    exists|i: int|
        0 <= i < rules.len() && #[trigger] rule_matches(rules[i], tool_name, input)
}

/// The rule that allows a tool.
pub open spec fn tool_rule(tool_name: Seq<char>) -> RuleModel {
    RuleModel { rule_type: RuleType::AllowTool, tool_name, prefix: None }
}

impl PermissionRule {
    /// A rule that allows a tool.
    pub fn allow_tool(tool_name: &str) -> (r: PermissionRule)
        ensures
            r@ == tool_rule(tool_name@),
    {
        PermissionRule {
            rule_type: RuleType::AllowTool,
            tool_name: tool_name.to_string(),
            prefix: None,
        }
    }

    /// A rule that allows a tool whose input begins in a certain way.
    pub fn allow_prefix(tool_name: &str, prefix: &str) -> (r: PermissionRule)
        ensures
            r@ == (RuleModel {
                rule_type: RuleType::AllowPrefix,
                tool_name: tool_name@,
                prefix: Some(prefix@),
            }),
    {
        PermissionRule {
            rule_type: RuleType::AllowPrefix,
            tool_name: tool_name.to_string(),
            prefix: Some(prefix.to_string()),
        }
    }

    /// Whether the rule allows a tool to be used with an input.
    pub fn matches(&self, tool_name: &str, input: &str) -> (r: bool)
        ensures
            r == rule_matches(self@, tool_name@, input@),
    {
        if !text::same(self.tool_name.as_str(), tool_name) {
            return false;
        }
        match self.rule_type {
            RuleType::AllowTool => true,
            RuleType::AllowPrefix => {
                if let Some(prefix) = &self.prefix {
                    text::starts_with(text::trim_start(input).as_str(), prefix.as_str())
                } else {
                    false
                }
            },
        }
    }

    /// Whether two rules are the same.
    fn same(&self, other: &PermissionRule) -> (r: bool)
        ensures
            r == (self@ == other@),
    {
        let same_prefix = match (&self.prefix, &other.prefix) {
            (Some(a), Some(b)) => text::same(a.as_str(), b.as_str()),
            (None, None) => true,
            _ => false,
        };
        self.rule_type == other.rule_type && text::same(
            self.tool_name.as_str(),
            other.tool_name.as_str(),
        ) && same_prefix
    }

    /// The same rule.
    pub fn copy(&self) -> (r: PermissionRule)
        ensures
            r@ == self@,
    {
        PermissionRule {
            rule_type: self.rule_type,
            tool_name: self.tool_name.clone(),
            prefix: match &self.prefix {
                Some(p) => Some(p.clone()),
                None => None,
            },
        }
    }
}

/// Whether one of some rules allows a tool to be used with an input.
fn any_matches(rules: &Vec<PermissionRule>, tool_name: &str, input: &str) -> (r: bool)
    ensures
        r == allowed_by(rule_views(rules@), tool_name@, input@),
{
    let ghost all = rule_views(rules@);
    let mut i: usize = 0;
    while i < rules.len()
        invariant
            i <= rules.len(),
            all == rule_views(rules@),
            forall|j: int| 0 <= j < i ==> !#[trigger] rule_matches(all[j], tool_name@, input@),
        decreases rules.len() - i,
    {
        if rules[i].matches(tool_name, input) {
            assert(rule_matches(all[i as int], tool_name@, input@));
            return true;
        }
        i += 1;
    }
    false
}

// ---------------------------------------------------------------------------
// Decisions
// ---------------------------------------------------------------------------

/// Whether a tool may be used.
#[derive(Debug, Clone, Copy, PartialEq, Eq, Structural)]
pub enum CheckResult {
    /// A rule allows it.
    Allowed,
    /// The user decides.
    AskUser,
    /// No rule allows it, and there is no user to ask.
    Denied,
}

/// For whom a rule holds.
#[derive(Debug, Clone, Copy, PartialEq, Eq, Structural)]
pub enum PermissionScope {
    /// This session.
    Session,
    /// Agents of this type.
    Local,
    /// All agents.
    Global,
}

/// What the user is asked to permit.
#[derive(Debug, Clone)]
pub struct PermissionRequest {
    pub tool_name: String,
    pub action_description: String,
    pub input: String,
    pub details: Option<String>,
}

impl PermissionRequest {
    /// A question without details.
    pub fn new(tool_name: &str, action_description: &str, input: &str) -> (r: PermissionRequest)
        ensures
            r.tool_name@ == tool_name@,
            r.action_description@ == action_description@,
            r.input@ == input@,
            r.details is None,
    {
        PermissionRequest {
            tool_name: tool_name.to_string(),
            action_description: action_description.to_string(),
            input: input.to_string(),
            details: None,
        }
    }

    /// The question with details.
    pub fn with_details(self, details: &str) -> (r: PermissionRequest)
        ensures
            r.tool_name == self.tool_name,
            r.action_description == self.action_description,
            r.input == self.input,
            r.details matches Some(d) && d@ == details@,
    {
        PermissionRequest { details: Some(details.to_string()), ..self }
    }
}

/// What the user decided.
#[derive(Debug, Clone, Copy, PartialEq, Eq, Structural)]
pub enum PermissionDecision {
    /// Yes, this once.
    Allow,
    /// No, this once.
    Deny,
    /// Yes, from now on.
    AlwaysAllow,
    /// No, from now on.
    AlwaysDeny,
}

// ---------------------------------------------------------------------------
// The rules of all agents
// ---------------------------------------------------------------------------

/// The rules that hold for all agents.
#[derive(Debug)]
pub struct GlobalPermissions {
    rules: Vec<PermissionRule>,
}

/// The rules with one more, unless they hold it.
pub open spec fn with_rule(rules: Seq<RuleModel>, rule: RuleModel) -> Seq<RuleModel> {
    if rules.contains(rule) {
        rules
    } else {
        rules.push(rule)
    }
}

impl View for GlobalPermissions {
    type V = Seq<RuleModel>;

    closed spec fn view(&self) -> Seq<RuleModel> {
        rule_views(self.rules@)
    }
}

impl GlobalPermissions {
    /// No rules.
    pub fn new() -> (r: GlobalPermissions)
        ensures
            r@ == Seq::<RuleModel>::empty(),
    {
        let r = GlobalPermissions { rules: Vec::new() };
        assert(r@ =~= Seq::empty());
        r
    }

    /// Some rules.
    pub fn with_rules(rules: Vec<PermissionRule>) -> (r: GlobalPermissions)
        ensures
            r@ == rule_views(rules@),
    {
        GlobalPermissions { rules }
    }

    /// Adds a rule, unless it is there.
    pub fn add_rule(&mut self, rule: PermissionRule)
        ensures
            final(self)@ == with_rule(old(self)@, rule@),
    {
        let ghost all = self@;
        let mut i: usize = 0;
        while i < self.rules.len()
            invariant
                i <= self.rules.len(),
                all == rule_views(self.rules@),
                *self == *old(self),
                all == old(self)@,
                forall|j: int| 0 <= j < i ==> #[trigger] all[j] != rule@,
            decreases self.rules.len() - i,
        {
            if self.rules[i].same(&rule) {
                assert(all[i as int] == rule@);
                return ;
            }
            i += 1;
        }
        assert(!all.contains(rule@));
        self.rules.push(rule);
        assert(self@ =~= all.push(rule@));
    }

    /// Whether a rule allows a tool to be used with an input.
    pub fn check(&self, tool_name: &str, input: &str) -> (r: bool)
        ensures
            r == allowed_by(self@, tool_name@, input@),
    {
        any_matches(&self.rules, tool_name, input)
    }

    /// The rules.
    pub fn rules(&self) -> (r: Vec<PermissionRule>)
        ensures
            rule_views(r@) == self@,
    {
        let ghost all = self@;
        let mut r: Vec<PermissionRule> = Vec::new();
        let mut i: usize = 0;
        while i < self.rules.len()
            invariant
                i <= self.rules.len(),
                all == rule_views(self.rules@),
                rule_views(r@) == all.take(i as int),
            decreases self.rules.len() - i,
        {
            let ghost was = rule_views(r@);
            r.push(self.rules[i].copy());
            assert(rule_views(r@) =~= was.push(all[i as int]));
            i += 1;
            assert(all.take(i as int) =~= was.push(all[i - 1]));
        }
        assert(all.take(i as int) =~= all);
        r
    }

    /// Drops all rules.
    pub fn clear(&mut self)
        ensures
            final(self)@ == Seq::<RuleModel>::empty(),
    {
        self.rules.clear();
        assert(self@ =~= Seq::empty());
    }
}

impl Default for GlobalPermissions {
    fn default() -> (r: GlobalPermissions)
        ensures
            r@ == Seq::<RuleModel>::empty(),
    {
        GlobalPermissions::new()
    }
}

// ---------------------------------------------------------------------------
// Sharing
// ---------------------------------------------------------------------------

/// The sets of rules that agents share. Each is known by its place: whoever knows the
/// place sees at once what others change.
#[derive(Debug)]
pub struct SharedPermissions {
    sets: Vec<GlobalPermissions>,
}

/// One of the sets of rules that agents share.
#[derive(Debug, Clone, Copy, PartialEq, Eq, Structural)]
pub struct GlobalRef {
    pub place: usize,
}

/// The sets of rules that agents share.
pub type Book = Seq<Seq<RuleModel>>;

/// The rules of a set; there are none in a set that is not shared.
pub open spec fn rules_at(book: Book, global: GlobalRef) -> Seq<RuleModel> {
    if global.place < book.len() {
        book[global.place as int]
    } else {
        seq![]
    }
}

/// The sets with one more rule in one of them.
pub open spec fn with_shared_rule(book: Book, global: GlobalRef, rule: RuleModel) -> Book {
    if global.place < book.len() {
        book.update(global.place as int, with_rule(book[global.place as int], rule))
    } else {
        book
    }
}

impl View for SharedPermissions {
    type V = Book;

    closed spec fn view(&self) -> Book {
        Seq::new(self.sets@.len(), |i: int| self.sets@[i]@)
    }
}

impl SharedPermissions {
    /// No sets.
    pub fn new() -> (r: SharedPermissions)
        ensures
            r@ == Book::empty(),
    {
        let r = SharedPermissions { sets: Vec::new() };
        assert(r@ =~= Book::empty());
        r
    }

    /// Shares a set of rules.
    pub fn share(&mut self, global: GlobalPermissions) -> (r: GlobalRef)
        ensures
            final(self)@ == old(self)@.push(global@),
            r.place == old(self)@.len(),
    {
        let place: usize = self.sets.len();
        self.sets.push(global);
        assert(self@ =~= old(self)@.push(global@));
        GlobalRef { place }
    }

    /// A set that is shared.
    pub fn get(&self, global: GlobalRef) -> (r: Option<&GlobalPermissions>)
        ensures
            match r {
                Some(g) => global.place < self@.len() && g@ == self@[global.place as int],
                None => global.place >= self@.len(),
            },
    {
        if global.place < self.sets.len() {
            Some(&self.sets[global.place])
        } else {
            None
        }
    }

    /// Adds a rule to a set, unless it is there.
    pub fn add_rule(&mut self, global: GlobalRef, rule: PermissionRule)
        ensures
            final(self)@ == with_shared_rule(old(self)@, global, rule@),
    {
        if global.place < self.sets.len() {
            let mut set = GlobalPermissions::with_rules(self.sets[global.place].rules());
            set.add_rule(rule);
            self.sets.set(global.place, set);
        }
        assert(self@ =~= with_shared_rule(old(self)@, global, rule@));
    }

    /// Whether a rule of a set allows a tool to be used with an input.
    pub fn check(&self, global: GlobalRef, tool_name: &str, input: &str) -> (r: bool)
        ensures
            r == allowed_by(rules_at(self@, global), tool_name@, input@),
    {
        match self.get(global) {
            Some(g) => g.check(tool_name, input),
            None => false,
        }
    }
}

impl Default for SharedPermissions {
    fn default() -> (r: SharedPermissions)
        ensures
            r@ == Book::empty(),
    {
        SharedPermissions::new()
    }
}

// ---------------------------------------------------------------------------
// The rules of one agent
// ---------------------------------------------------------------------------

/// The rules of one agent, and the set of rules that it shares with other agents.
pub struct PermissionManager {
    global: GlobalRef,
    local: Vec<PermissionRule>,
    session: Vec<PermissionRule>,
    interactive: bool,
    agent_type: String,
}

/// The rules of one agent.
#[verifier::ext_equal]
pub struct ManagerModel {
    pub global: GlobalRef,
    pub local: Seq<RuleModel>,
    pub session: Seq<RuleModel>,
    pub interactive: bool,
    pub agent_type: Seq<char>,
}

impl View for PermissionManager {
    type V = ManagerModel;

    closed spec fn view(&self) -> ManagerModel {
        ManagerModel {
            global: self.global,
            local: rule_views(self.local@),
            session: rule_views(self.session@),
            interactive: self.interactive,
            agent_type: self.agent_type@,
        }
    }
}

/// Whether a tool may be used with an input: when a rule of the session, of the
/// type of agent or of all agents allows it; else the user decides, if there is
/// one.
pub open spec fn checked(
    m: ManagerModel,
    book: Book,
    tool_name: Seq<char>,
    input: Seq<char>,
) -> CheckResult {
    if allowed_by(m.session, tool_name, input) || allowed_by(m.local, tool_name, input)
        || allowed_by(rules_at(book, m.global), tool_name, input) {
        CheckResult::Allowed
    } else if m.interactive {
        CheckResult::AskUser
    } else {
        CheckResult::Denied
    }
}

/// The rules of an agent and those that agents share.
pub type Rules = (ManagerModel, Book);

/// The rules with one more.
pub open spec fn rule_added(
    m: ManagerModel,
    book: Book,
    rule: RuleModel,
    scope: PermissionScope,
) -> Rules {
    match scope {
        PermissionScope::Session => (ManagerModel { session: m.session.push(rule), ..m }, book),
        PermissionScope::Local => (ManagerModel { local: m.local.push(rule), ..m }, book),
        PermissionScope::Global => (m, with_shared_rule(book, m.global, rule)),
    }
}

/// What a decision makes of the rules: only a lasting yes is remembered.
pub open spec fn decided(
    m: ManagerModel,
    book: Book,
    tool_name: Seq<char>,
    decision: PermissionDecision,
    scope: PermissionScope,
) -> Rules {
    if decision is AlwaysAllow {
        rule_added(m, book, tool_rule(tool_name), scope)
    } else {
        (m, book)
    }
}

/// Whether a decision is a yes.
pub open spec fn is_yes(decision: PermissionDecision) -> bool {
    decision is Allow || decision is AlwaysAllow
}

impl PermissionManager {
    /// An agent without rules of its own that shares a set of rules, and with a user to
    /// ask.
    pub fn new(global: GlobalRef, agent_type: &str) -> (r: PermissionManager)
        ensures
            r@ == (ManagerModel {
                global,
                local: seq![],
                session: seq![],
                interactive: true,
                agent_type: agent_type@,
            }),
    {
        let r = PermissionManager {
            global,
            local: Vec::new(),
            session: Vec::new(),
            interactive: true,
            agent_type: agent_type.to_string(),
        };
        assert(r@.local =~= seq![]);
        assert(r@.session =~= seq![]);
        r
    }

    /// An agent with rules for its type that shares a set of rules, and with a user to
    /// ask.
    pub fn with_local_rules(
        global: GlobalRef,
        agent_type: &str,
        local_rules: Vec<PermissionRule>,
    ) -> (r: PermissionManager)
        ensures
            r@ == (ManagerModel {
                global,
                local: rule_views(local_rules@),
                session: seq![],
                interactive: true,
                agent_type: agent_type@,
            }),
    {
        let r = PermissionManager {
            global,
            local: local_rules,
            session: Vec::new(),
            interactive: true,
            agent_type: agent_type.to_string(),
        };
        assert(r@.session =~= seq![]);
        r
    }

    /// Says whether there is a user to ask.
    pub fn set_interactive(&mut self, interactive: bool)
        ensures
            final(self)@ == (ManagerModel { interactive, ..old(self)@ }),
    {
        self.interactive = interactive;
    }

    /// Whether a tool may be used with an input.
    pub fn check(&self, shared: &SharedPermissions, tool_name: &str, input: &str) -> (r:
        CheckResult)
        ensures
            r == checked(self@, shared@, tool_name@, input@),
    {
        if any_matches(&self.session, tool_name, input) {
            return CheckResult::Allowed;
        }
        if any_matches(&self.local, tool_name, input) {
            return CheckResult::Allowed;
        }
        if shared.check(self.global, tool_name, input) {
            return CheckResult::Allowed;
        }
        if self.interactive {
            CheckResult::AskUser
        } else {
            CheckResult::Denied
        }
    }

    /// Adds a rule.
    pub fn add_rule(
        &mut self,
        shared: &mut SharedPermissions,
        rule: PermissionRule,
        scope: PermissionScope,
    )
        ensures
            (final(self)@, final(shared)@) == rule_added(old(self)@, old(shared)@, rule@, scope),
    {
        match scope {
            PermissionScope::Session => {
                self.add_session_rule(rule);
            },
            PermissionScope::Local => {
                self.local.push(rule);
                assert(self@.local =~= old(self)@.local.push(rule@));
            },
            PermissionScope::Global => {
                shared.add_rule(self.global, rule);
            },
        }
    }

    /// Adds a rule for the session.
    pub fn add_session_rule(&mut self, rule: PermissionRule)
        ensures
            final(self)@ == (ManagerModel { session: old(self)@.session.push(rule@), ..old(self)@ }),
    {
        self.session.push(rule);
        assert(self@.session =~= old(self)@.session.push(rule@));
    }

    /// Takes a decision of the user in, and says whether it is a yes.
    pub fn process_decision(
        &mut self,
        shared: &mut SharedPermissions,
        tool_name: &str,
        _input: &str,
        decision: PermissionDecision,
        scope: PermissionScope,
    ) -> (r: bool)
        ensures
            r == is_yes(decision),
            (final(self)@, final(shared)@) == decided(
                old(self)@,
                old(shared)@,
                tool_name@,
                decision,
                scope,
            ),
    {
        match decision {
            PermissionDecision::Allow => true,
            PermissionDecision::Deny => false,
            PermissionDecision::AlwaysAllow => {
                let rule = PermissionRule::allow_tool(tool_name);
                self.add_rule(shared, rule, scope);
                true
            },
            PermissionDecision::AlwaysDeny => false,
        }
    }

    /// The set of rules that the agent shares.
    pub fn global(&self) -> (r: GlobalRef)
        ensures
            r == self@.global,
    {
        self.global
    }

    /// The rules of the session.
    pub fn session_rules(&self) -> (r: &Vec<PermissionRule>)
        ensures
            rule_views(r@) == self@.session,
    {
        &self.session
    }

    /// The rules of the type of agent.
    pub fn local_rules(&self) -> (r: &Vec<PermissionRule>)
        ensures
            rule_views(r@) == self@.local,
    {
        &self.local
    }

    /// The type of agent.
    pub fn agent_type(&self) -> (r: &str)
        ensures
            r@ == self@.agent_type,
    {
        self.agent_type.as_str()
    }

    /// Drops the rules of the session.
    pub fn clear_session_rules(&mut self)
        ensures
            final(self)@ == (ManagerModel { session: seq![], ..old(self)@ }),
    {
        self.session.clear();
        assert(self@.session =~= seq![]);
    }

    /// Whether there is a user to ask.
    pub fn is_interactive(&self) -> (r: bool)
        ensures
            r == self@.interactive,
    {
        self.interactive
    }
}

// ---------------------------------------------------------------------------
// Laws
// ---------------------------------------------------------------------------

/// A rule that is added allows what it matches.
proof fn pushed_rule_allows(rules: Seq<RuleModel>, rule: RuleModel, tool: Seq<char>, input: Seq<char>)
    ensures
        rule_matches(rule, tool, input) ==> allowed_by(rules.push(rule), tool, input),
        rule_matches(rule, tool, input) ==> allowed_by(with_rule(rules, rule), tool, input),
        allowed_by(rules, tool, input) ==> allowed_by(rules.push(rule), tool, input),
        allowed_by(rules, tool, input) ==> allowed_by(with_rule(rules, rule), tool, input),
{
    let more = rules.push(rule);
    if rule_matches(rule, tool, input) {
        assert(rule_matches(more[rules.len() as int], tool, input));
        if rules.contains(rule) {
            let i = choose|i: int| 0 <= i < rules.len() && rules[i] == rule;
            assert(rule_matches(rules[i], tool, input));
        }
    }
    if allowed_by(rules, tool, input) {
        let i = choose|i: int|
            0 <= i < rules.len() && #[trigger] rule_matches(rules[i], tool, input);
        assert(rule_matches(more[i], tool, input));
    }
}

/// A rule takes effect at once, whatever its scope.
pub proof fn added_rules_take_effect(
    m: ManagerModel,
    book: Book,
    rule: RuleModel,
    scope: PermissionScope,
    tool: Seq<char>,
    input: Seq<char>,
)
    requires
        rule_matches(rule, tool, input),
        scope == PermissionScope::Global ==> m.global.place < book.len(),
    ensures
        ({
            let (m2, g2) = rule_added(m, book, rule, scope);
            checked(m2, g2, tool, input) == CheckResult::Allowed
        }),
{
    pushed_rule_allows(m.session, rule, tool, input);
    pushed_rule_allows(m.local, rule, tool, input);
    pushed_rule_allows(rules_at(book, m.global), rule, tool, input);
}

/// A rule takes nothing away.
pub proof fn rules_only_allow(
    m: ManagerModel,
    book: Book,
    rule: RuleModel,
    scope: PermissionScope,
    tool: Seq<char>,
    input: Seq<char>,
)
    requires
        checked(m, book, tool, input) == CheckResult::Allowed,
    ensures
        ({
            let (m2, g2) = rule_added(m, book, rule, scope);
            checked(m2, g2, tool, input) == CheckResult::Allowed
        }),
{
    pushed_rule_allows(m.session, rule, tool, input);
    pushed_rule_allows(m.local, rule, tool, input);
    pushed_rule_allows(rules_at(book, m.global), rule, tool, input);
}

/// A rule for all agents takes effect for every agent that shares the set, not only the
/// one that added it.
pub proof fn global_rules_hold_for_every_agent(
    m: ManagerModel,
    other: ManagerModel,
    book: Book,
    rule: RuleModel,
    tool: Seq<char>,
    input: Seq<char>,
)
    requires
        rule_matches(rule, tool, input),
        m.global.place < book.len(),
        other.global == m.global,
    ensures
        ({
            let (m2, g2) = rule_added(m, book, rule, PermissionScope::Global);
            m2 == m && checked(other, g2, tool, input) == CheckResult::Allowed
        }),
{
    pushed_rule_allows(rules_at(book, m.global), rule, tool, input);
}

/// A rule of the session or of a type of agent is of no concern to other agents.
pub proof fn own_rules_stay_with_the_agent(
    m: ManagerModel,
    book: Book,
    rule: RuleModel,
    scope: PermissionScope,
)
    requires
        scope != PermissionScope::Global,
    ensures
        rule_added(m, book, rule, scope).1 == book,
{
}

/// After a lasting yes the tool may be used with any input; other decisions
/// change nothing.
pub proof fn a_lasting_yes_is_remembered(
    m: ManagerModel,
    book: Book,
    tool: Seq<char>,
    decision: PermissionDecision,
    scope: PermissionScope,
    input: Seq<char>,
)
    requires
        scope == PermissionScope::Global ==> m.global.place < book.len(),
    ensures
        ({
            let (m2, g2) = decided(m, book, tool, decision, scope);
            if decision is AlwaysAllow {
                checked(m2, g2, tool, input) == CheckResult::Allowed
            } else {
                m2 == m && g2 == book
            }
        }),
{
    if decision is AlwaysAllow {
        added_rules_take_effect(m, book, tool_rule(tool), scope, tool, input);
    }
}

/// The rules of all agents hold no rule twice, and adding one twice is adding it
/// once.
pub proof fn global_rules_stay_distinct(rules: Seq<RuleModel>, rule: RuleModel)
    ensures
        rules.no_duplicates() ==> with_rule(rules, rule).no_duplicates(),
        with_rule(with_rule(rules, rule), rule) == with_rule(rules, rule),
{
    if !rules.contains(rule) {
        assert(rules.push(rule)[rules.len() as int] == rule);
        assert(rules.push(rule).contains(rule));
        if rules.no_duplicates() {
            assert forall|i: int, j: int|
                0 <= i < rules.push(rule).len() && 0 <= j < rules.push(rule).len() && i
                    != j implies rules.push(rule)[i] != rules.push(rule)[j] by {
                if i == rules.len() {
                    assert(rules.contains(rules[j]));
                } else if j == rules.len() {
                    assert(rules.contains(rules[i]));
                }
            }
        }
    }
}

/// An agent with no user to ask never asks; one with a user is never refused.
pub proof fn asking_needs_a_user(
    m: ManagerModel,
    book: Book,
    tool: Seq<char>,
    input: Seq<char>,
)
    ensures
        !m.interactive ==> checked(m, book, tool, input) != CheckResult::AskUser,
        m.interactive ==> checked(m, book, tool, input) != CheckResult::Denied,
{
}

/// A rule for a tool allows every use of that tool and of no other; a rule with a beginning
/// allows the uses whose input begins so, the space before it left out.
pub proof fn rules_are_for_their_tool(
    tool: Seq<char>,
    other: Seq<char>,
    prefix: Seq<char>,
    input: Seq<char>,
)
    requires
        other != tool,
    ensures
        rule_matches(
            (RuleModel { rule_type: RuleType::AllowTool, tool_name: tool, prefix: None }),
            tool,
            input,
        ),
        !rule_matches(
            (RuleModel { rule_type: RuleType::AllowTool, tool_name: tool, prefix: None }),
            other,
            input,
        ),
        !rule_matches(
            (RuleModel {
                rule_type: RuleType::AllowPrefix,
                tool_name: tool,
                prefix: Some(prefix),
            }),
            other,
            input,
        ),
        !rule_matches(
            (RuleModel { rule_type: RuleType::AllowPrefix, tool_name: tool, prefix: None }),
            tool,
            input,
        ),
        rule_matches(
            (RuleModel {
                rule_type: RuleType::AllowPrefix,
                tool_name: tool,
                prefix: Some(prefix),
            }),
            tool,
            input,
        ) <==> (prefix.len() <= text::trimmed_start(input).len() && forall|i: int|
            0 <= i < prefix.len() ==> text::trimmed_start(input)[i] == #[trigger] prefix[i]),
{
    let s = text::trimmed_start(input);
    if text::begins_with(s, prefix) {
        assert forall|i: int| 0 <= i < prefix.len() implies s[i] == #[trigger] prefix[i] by {
            assert(s.subrange(0, prefix.len() as int)[i] == prefix[i]);
        }
    }
    if prefix.len() <= s.len() && forall|i: int|
        0 <= i < prefix.len() ==> s[i] == #[trigger] prefix[i] {
        assert(s.subrange(0, prefix.len() as int) =~= prefix);
    }
}

/// Where no rule is for a tool, the user is asked, and without a user the answer is no.
pub proof fn without_a_rule_nothing_is_allowed(
    m: ManagerModel,
    book: Book,
    tool: Seq<char>,
    input: Seq<char>,
)
    requires
        m.global.place < book.len(),
        forall|i: int| 0 <= i < m.session.len() ==> (#[trigger] m.session[i]).tool_name != tool,
        forall|i: int| 0 <= i < m.local.len() ==> (#[trigger] m.local[i]).tool_name != tool,
        forall|i: int|
            0 <= i < book[m.global.place as int].len() ==> (#[trigger] book[m.global.place as int][i]).tool_name
                != tool,
    ensures
        m.interactive ==> checked(m, book, tool, input) == CheckResult::AskUser,
        !m.interactive ==> checked(m, book, tool, input) == CheckResult::Denied,
{
}

/// A rule of the session, of the type of agent or of all agents is enough.
pub proof fn any_rule_is_enough(
    m: ManagerModel,
    book: Book,
    tool: Seq<char>,
    input: Seq<char>,
    i: int,
)
    requires
        m.global.place < book.len(),
    ensures
        0 <= i < m.session.len() && rule_matches(m.session[i], tool, input) ==> checked(
            m,
            book,
            tool,
            input,
        ) == CheckResult::Allowed,
        0 <= i < m.local.len() && rule_matches(m.local[i], tool, input) ==> checked(
            m,
            book,
            tool,
            input,
        ) == CheckResult::Allowed,
        0 <= i < book[m.global.place as int].len() && rule_matches(
            book[m.global.place as int][i],
            tool,
            input,
        ) ==> checked(m, book, tool, input) == CheckResult::Allowed,
{
}

/// A rule goes where it was added, after the rules that are there, and changes nothing else.
pub proof fn rules_go_where_they_are_added(
    m: ManagerModel,
    book: Book,
    rule: RuleModel,
    other: GlobalRef,
)
    requires
        m.global.place < book.len(),
        other.place < book.len(),
        other != m.global,
    ensures
        rule_added(m, book, rule, PermissionScope::Session).0.session == m.session.push(rule),
        rule_added(m, book, rule, PermissionScope::Session).0.local == m.local,
        rule_added(m, book, rule, PermissionScope::Local).0.local == m.local.push(rule),
        rule_added(m, book, rule, PermissionScope::Local).0.session == m.session,
        rule_added(m, book, rule, PermissionScope::Global).0 == m,
        rule_added(m, book, rule, PermissionScope::Global).1.len() == book.len(),
        rule_added(m, book, rule, PermissionScope::Global).1[other.place as int]
            == book[other.place as int],
        book[m.global.place as int].contains(rule) ==> rule_added(
            m,
            book,
            rule,
            PermissionScope::Global,
        ).1 == book,
        !book[m.global.place as int].contains(rule) ==> rule_added(
            m,
            book,
            rule,
            PermissionScope::Global,
        ).1[m.global.place as int] == book[m.global.place as int].push(rule),
{
}

/// Yes is yes, once or for ever; no is no.
pub proof fn yes_is_yes()
    ensures
        is_yes(PermissionDecision::Allow),
        is_yes(PermissionDecision::AlwaysAllow),
        !is_yes(PermissionDecision::Deny),
        !is_yes(PermissionDecision::AlwaysDeny),
{
}

} // verus!
