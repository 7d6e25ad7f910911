//! Messages of a conversation, and what is put into them before they go to the
//! model.

use std::sync::Arc;
use vstd::prelude::*;

use crate::json::{Json, JsonTree};
use crate::text;

verus! {

// ---------------------------------------------------------------------------
// Messages
// ---------------------------------------------------------------------------

/// A part of a message.
pub enum ContentBlock {
    /// Text.
    Text { text: String },
    /// Anything else.
    Other(Json),
}

/// What a message holds.
pub enum MessageContent {
    Text(String),
    Blocks(Vec<ContentBlock>),
}

/// A message, and who said it.
pub struct Message {
    pub role: String,
    pub content: MessageContent,
}

/// A part of a message.
pub enum BlockModel {
    Text(Seq<char>),
    Other(JsonTree),
}

/// What a message holds.
pub enum ContentModel {
    Text(Seq<char>),
    Blocks(Seq<BlockModel>),
}

/// A message, and who said it.
pub struct MessageModel {
    pub role: Seq<char>,
    pub content: ContentModel,
}

impl View for ContentBlock {
    type V = BlockModel;

    open spec fn view(&self) -> BlockModel {
        match self {
            ContentBlock::Text { text } => BlockModel::Text(text@),
            ContentBlock::Other(j) => BlockModel::Other(j@),
        }
    }
}

/// The parts of a list.
pub open spec fn block_views(v: Seq<ContentBlock>) -> Seq<BlockModel> {
    Seq::new(v.len(), |i: int| v[i]@)
}

impl View for Message {
    type V = MessageModel;

    open spec fn view(&self) -> MessageModel {
        MessageModel {
            role: self.role@,
            content: match self.content {
                MessageContent::Text(s) => ContentModel::Text(s@),
                MessageContent::Blocks(v) => ContentModel::Blocks(block_views(v@)),
            },
        }
    }
}

/// The messages of a list.
pub open spec fn message_views(v: Seq<Message>) -> Seq<MessageModel> {
    Seq::new(v.len(), |i: int| v[i]@)
}

/// The texts among the parts of a message, in order.
pub open spec fn block_texts(v: Seq<BlockModel>) -> Seq<Seq<char>>
    decreases v.len(),
{
    if v.len() == 0 {
        seq![]
    } else {
        match v.last() {
            BlockModel::Text(s) => block_texts(v.drop_last()).push(s),
            BlockModel::Other(_) => block_texts(v.drop_last()),
        }
    }
}

/// The text of a message; the texts among its parts have blanks between them.
pub open spec fn text_of(content: ContentModel) -> Seq<char> {
    match content {
        ContentModel::Text(s) => s,
        ContentModel::Blocks(v) => text::joined(block_texts(v), " "@),
    }
}

/// A message with text at its end.
pub open spec fn appended(m: MessageModel, s: Seq<char>) -> MessageModel {
    MessageModel {
        content: match m.content {
            ContentModel::Text(t) => ContentModel::Text(t + s),
            ContentModel::Blocks(v) => ContentModel::Blocks(v.push(BlockModel::Text(s))),
        },
        ..m
    }
}

/// A message with text at its beginning.
pub open spec fn prepended(m: MessageModel, s: Seq<char>) -> MessageModel {
    MessageModel {
        content: match m.content {
            ContentModel::Text(t) => ContentModel::Text(s + t),
            ContentModel::Blocks(v) => ContentModel::Blocks(seq![BlockModel::Text(s)] + v),
        },
        ..m
    }
}

impl Message {
    /// A message of the user.
    pub fn user(s: &str) -> (r: Message)
        ensures
            r@ == (MessageModel { role: "user"@, content: ContentModel::Text(s@) }),
    {
        Message { role: "user".to_owned(), content: MessageContent::Text(s.to_owned()) }
    }

    /// A message of the agent.
    pub fn assistant(s: &str) -> (r: Message)
        ensures
            r@ == (MessageModel { role: "assistant"@, content: ContentModel::Text(s@) }),
    {
        Message { role: "assistant".to_owned(), content: MessageContent::Text(s.to_owned()) }
    }

    /// The text of the message.
    pub fn text(&self) -> (r: String)
        ensures
            r@ == text_of(self@.content),
    {
        match &self.content {
            MessageContent::Text(s) => s.clone(),
            MessageContent::Blocks(v) => {
                let ghost all = block_views(v@);
                let mut parts: Vec<String> = Vec::new();
                let mut i: usize = 0;
                assert(text::views(parts@) =~= block_texts(all.take(0)));
                while i < v.len()
                    invariant
                        i <= v.len(),
                        all == block_views(v@),
                        text::views(parts@) == block_texts(all.take(i as int)),
                    decreases v.len() - i,
                {
                    let ghost was = text::views(parts@);
                    proof {
                        assert(all.take(i + 1).drop_last() =~= all.take(i as int));
                        assert(all.take(i + 1).last() == v@[i as int]@);
                    }
                    if let ContentBlock::Text { text } = &v[i] {
                        let s = text.clone();
                        parts.push(s);
                        assert(text::views(parts@) =~= was.push(s@));
                    }
                    i += 1;
                }
                assert(all.take(i as int) =~= all);
                text::join(&parts, " ")
            },
        }
    }

    /// The same message.
    pub fn copy(&self) -> (r: Message)
        ensures
            r@ == self@,
    {
        let content = match &self.content {
            MessageContent::Text(s) => MessageContent::Text(s.clone()),
            MessageContent::Blocks(v) => {
                let ghost all = block_views(v@);
                let mut out: Vec<ContentBlock> = Vec::new();
                let mut i: usize = 0;
                while i < v.len()
                    invariant
                        i <= v.len(),
                        all == block_views(v@),
                        block_views(out@) == all.take(i as int),
                    decreases v.len() - i,
                {
                    let ghost was = block_views(out@);
                    let b = match &v[i] {
                        ContentBlock::Text { text } => ContentBlock::Text { text: text.clone() },
                        ContentBlock::Other(j) => ContentBlock::Other(j.copy()),
                    };
                    out.push(b);
                    assert(block_views(out@) =~= was.push(all[i as int]));
                    i += 1;
                    assert(all.take(i as int) =~= was.push(all[i - 1]));
                }
                assert(all.take(i as int) =~= all);
                MessageContent::Blocks(out)
            },
        };
        Message { role: self.role.clone(), content }
    }

    /// The same messages.
    pub fn copy_all(v: &Vec<Message>) -> (r: Vec<Message>)
        ensures
            message_views(r@) == message_views(v@),
    {
        let ghost all = message_views(v@);
        let mut r: Vec<Message> = Vec::new();
        let mut i: usize = 0;
        while i < v.len()
            invariant
                i <= v.len(),
                all == message_views(v@),
                message_views(r@) == all.take(i as int),
            decreases v.len() - i,
        {
            let ghost was = message_views(r@);
            r.push(v[i].copy());
            assert(message_views(r@) =~= was.push(all[i as int]));
            i += 1;
            assert(all.take(i as int) =~= was.push(all[i - 1]));
        }
        assert(all.take(i as int) =~= all);
        r
    }

    /// Puts text at the end of the message.
    pub fn append_text(&mut self, s: &str)
        ensures
            final(self)@ == appended(old(self)@, s@),
    {
        match &mut self.content {
            MessageContent::Text(t) => {
                t.append(s);
            },
            MessageContent::Blocks(v) => {
                let ghost was = block_views(v@);
                v.push(ContentBlock::Text { text: s.to_owned() });
                assert(block_views(v@) =~= was.push(BlockModel::Text(s@)));
            },
        }
    }

    /// Puts text at the beginning of the message.
    pub fn prepend_text(&mut self, s: &str)
        ensures
            final(self)@ == prepended(old(self)@, s@),
    {
        match &mut self.content {
            MessageContent::Text(t) => {
                *t = text::cat2(s, t.as_str());
            },
            MessageContent::Blocks(v) => {
                let ghost was = block_views(v@);
                v.insert(0, ContentBlock::Text { text: s.to_owned() });
                assert(block_views(v@) =~= seq![BlockModel::Text(s@)] + was);
            },
        }
    }
}

// ---------------------------------------------------------------------------
// What is put into messages
// ---------------------------------------------------------------------------

/// Messages with text at the end of the last one.
pub open spec fn with_appended(messages: Seq<MessageModel>, s: Seq<char>) -> Seq<MessageModel> {
    if messages.len() == 0 {
        messages
    } else {
        messages.update(messages.len() - 1, appended(messages.last(), s))
    }
}

/// A reminder in its tags.
pub open spec fn reminder_text(reminder: Seq<char>) -> Seq<char> {
    "\n<vibe-working-agent-system>\n"@ + reminder + "\n</vibe-working-agent-system>"@
}

/// Where the first message of the user stands; the number of messages, where
/// there is none.
pub open spec fn first_user(messages: Seq<MessageModel>) -> int
    decreases messages.len(),
{
    if messages.len() == 0 || messages[0].role == "user"@ {
        0
    } else {
        1 + first_user(messages.skip(1))
    }
}

/// Messages with text at the beginning of the user's first one.
pub open spec fn with_prepended(messages: Seq<MessageModel>, s: Seq<char>) -> Seq<MessageModel> {
    let k = first_user(messages);
    if k >= messages.len() {
        messages
    } else {
        messages.update(k, prepended(messages[k], s))
    }
}

/// Puts text at the end of the last message, where there is one.
pub fn append_to_last_message(messages: &mut Vec<Message>, s: &str)
    ensures
        message_views(final(messages)@) == with_appended(message_views(old(messages)@), s@),
{
    let n: usize = messages.len();
    if n > 0 {
        let ghost was = message_views(messages@);
        let mut last = messages[n - 1].copy();
        last.append_text(s);
        messages.set(n - 1, last);
        assert(message_views(messages@) =~= with_appended(was, s@));
    }
}

/// Puts a reminder at the end of the last message, where there is one.
pub fn inject_system_reminder(messages: &mut Vec<Message>, reminder: &str)
    ensures
        message_views(final(messages)@) == with_appended(
            message_views(old(messages)@),
            reminder_text(reminder@),
        ),
{
    let s = text::cat3(
        "\n<vibe-working-agent-system>\n",
        reminder,
        "\n</vibe-working-agent-system>",
    );
    append_to_last_message(messages, s.as_str());
}

/// Puts text at the beginning of the user's first message, where there is one.
pub fn prepend_to_first_user_message(messages: &mut Vec<Message>, s: &str)
    ensures
        message_views(final(messages)@) == with_prepended(message_views(old(messages)@), s@),
{
    let ghost all = message_views(messages@);
    let mut i: usize = 0;
    assert(all.skip(0) =~= all);
    while i < messages.len()
        invariant
            i <= messages.len(),
            all == message_views(messages@),
            all == message_views(old(messages)@),
            first_user(all) == i + first_user(all.skip(i as int)),
        decreases messages.len() - i,
    {
        assert(all[i as int] == messages@[i as int]@);
        if text::same(messages[i].role.as_str(), "user") {
            let mut m = messages[i].copy();
            m.prepend_text(s);
            messages.set(i, m);
            assert(message_views(messages@) =~= with_prepended(all, s@));
            return;
        }
        assert(all.skip(i as int).skip(1) =~= all.skip(i + 1));
        i += 1;
    }
}

/// What is put into messages changes no number of them and nobody's words but
/// those of one message.
pub proof fn injections_touch_one_message(messages: Seq<MessageModel>, s: Seq<char>)
    ensures
        with_appended(messages, s).len() == messages.len(),
        with_prepended(messages, s).len() == messages.len(),
        forall|i: int|
            0 <= i < messages.len() - 1 ==> #[trigger] with_appended(messages, s)[i]
                == messages[i],
        forall|i: int|
            0 <= i < messages.len() && i != first_user(messages) ==> #[trigger] with_prepended(
                messages,
                s,
            )[i] == messages[i],
        forall|i: int|
            0 <= i < messages.len() ==> (#[trigger] with_prepended(messages, s)[i]).role
                == messages[i].role && with_appended(messages, s)[i].role == messages[i].role,
{
    first_user_bounds(messages);
}

/// The first message of the user is one of the messages, or there is none.
proof fn first_user_bounds(messages: Seq<MessageModel>)
    ensures
        0 <= first_user(messages) <= messages.len(),
    decreases messages.len(),
{
    if messages.len() > 0 && messages[0].role != "user"@ {
        first_user_bounds(messages.skip(1));
    }
}

// ---------------------------------------------------------------------------
// Chains
// ---------------------------------------------------------------------------

/// Something that changes the messages before they go to the model. `I` is what
/// it may know of the agent.
pub trait ContextInjection<I> {
    /// Its name.
    spec fn named(&self) -> Seq<char>;

    /// Whether it takes some messages.
    spec fn takes(&self, internals: I, before: Vec<Message>) -> bool;

    /// Whether it may turn some messages into others.
    spec fn may_turn(&self, internals: I, before: Vec<Message>, after: Vec<Message>) -> bool;

    /// Its name.
    fn name(&self) -> (r: &str)
        ensures
            r@ == self.named(),
    ;

    /// Changes the messages.
    fn inject(&self, internals: &I, messages: Vec<Message>) -> (r: Vec<Message>)
        requires
            self.takes(*internals, messages),
        ensures
            self.may_turn(*internals, messages, r),
    ;
}

/// An injection that is a function.
pub struct FnInjection<F> {
    pub label: String,
    pub func: F,
}

impl<F> FnInjection<F> {
    /// An injection of a name that is a function.
    pub fn new(name: String, func: F) -> (r: FnInjection<F>)
        ensures
            r.label == name,
            r.func == func,
    {
        FnInjection { label: name, func }
    }
}

impl<I, F: Fn(&I, Vec<Message>) -> Vec<Message>> ContextInjection<I> for FnInjection<F> {
    open spec fn named(&self) -> Seq<char> {
        self.label@
    }

    open spec fn takes(&self, internals: I, before: Vec<Message>) -> bool {
        call_requires(self.func, (&internals, before))
    }

    open spec fn may_turn(&self, internals: I, before: Vec<Message>, after: Vec<Message>) -> bool {
        call_ensures(self.func, (&internals, before), after)
    }

    fn name(&self) -> (r: &str) {
        self.label.as_str()
    }

    fn inject(&self, internals: &I, messages: Vec<Message>) -> (r: Vec<Message>) {
        (self.func)(internals, messages)
    }
}

/// Injections that are applied one after the other.
pub struct InjectionChain<J> {
    pub injections: Vec<Arc<J>>,
}

impl<J> Default for InjectionChain<J> {
    fn default() -> (r: InjectionChain<J>)
        ensures
            r@ == Seq::<J>::empty(),
    {
        InjectionChain::new()
    }
}

impl<J> InjectionChain<J> {
    /// The injections, in order.
    pub open spec fn view(&self) -> Seq<J> {
        Seq::new(self.injections@.len(), |i: int| *self.injections@[i])
    }

    /// No injections.
    pub fn new() -> (r: InjectionChain<J>)
        ensures
            r@ == Seq::<J>::empty(),
    {
        let r = InjectionChain { injections: Vec::new() };
        assert(r@ =~= Seq::empty());
        r
    }

    /// Adds an injection at the end.
    pub fn add(&mut self, injection: J)
        ensures
            final(self)@ == old(self)@.push(injection),
    {
        self.add_shared(Arc::new(injection));
    }

    /// Adds an injection at the end that others use too.
    pub fn add_shared(&mut self, injection: Arc<J>)
        ensures
            final(self)@ == old(self)@.push(*injection),
    {
        self.injections.push(injection);
        assert(self@ =~= old(self)@.push(*injection));
    }

    /// How many injections there are.
    pub fn len(&self) -> (r: usize)
        ensures
            r == self@.len(),
    {
        self.injections.len()
    }

    /// Whether there are none.
    pub fn is_empty(&self) -> (r: bool)
        ensures
            r == (self@.len() == 0),
    {
        self.injections.len() == 0
    }
}

/// Whether injections take whatever messages there are.
pub open spec fn chain_ready<I, J: ContextInjection<I>>(chain: Seq<J>, internals: I) -> bool {
    forall|i: int, v: Vec<Message>|
        0 <= i < chain.len() ==> #[trigger] chain[i].takes(internals, v)
}

/// Whether injections may turn some messages into others, each getting what the
/// one before it gave.
pub open spec fn chain_may_turn<I, J: ContextInjection<I>>(
    chain: Seq<J>,
    internals: I,
    before: Vec<Message>,
    after: Vec<Message>,
) -> bool
    decreases chain.len(),
{
    if chain.len() == 0 {
        before == after
    } else {
        exists|mid: Vec<Message>|
            chain_may_turn(chain.drop_last(), internals, before, mid)
                && #[trigger] chain.last().may_turn(internals, mid, after)
    }
}

impl<J> InjectionChain<J> {
    /// Applies the injections in order, each to what the one before it gave.
    pub fn apply<I>(&self, internals: &I, messages: Vec<Message>) -> (r: Vec<Message>) where
        J: ContextInjection<I>,

        requires
            chain_ready(self@, *internals),
        ensures
            chain_may_turn(self@, *internals, messages, r),
    {
        let mut out = messages;
        let mut i: usize = 0;
        while i < self.injections.len()
            invariant
                i <= self.injections.len(),
                chain_ready(self@, *internals),
                chain_may_turn(self@.take(i as int), *internals, messages, out),
            decreases self.injections.len() - i,
        {
            let ghost was = out;
            assert(self@[i as int].takes(*internals, out));
            out = self.injections[i].inject(internals, out);
            i += 1;
            proof {
                let here = self@.take(i as int);
                assert(here.drop_last() =~= self@.take(i - 1));
                assert(here.last() == self@[i - 1]);
                assert(chain_may_turn(here.drop_last(), *internals, messages, was));
                assert(here.last().may_turn(*internals, was, out));
            }
        }
        assert(self@.take(i as int) =~= self@);
        out
    }

    /// The names of the injections, in order.
    pub fn names<I>(&self) -> (r: Vec<&str>) where J: ContextInjection<I>
        ensures
            text::str_views(r@) == Seq::new(self@.len(), |i: int| self@[i].named()),
    {
        let ghost all = Seq::new(self@.len(), |i: int| self@[i].named());
        let mut r: Vec<&str> = Vec::new();
        let mut i: usize = 0;
        while i < self.injections.len()
            invariant
                i <= self.injections.len(),
                all == Seq::new(self@.len(), |j: int| self@[j].named()),
                text::str_views(r@) == all.take(i as int),
            decreases self.injections.len() - i,
        {
            let ghost was = text::str_views(r@);
            let s = self.injections[i].name();
            r.push(s);
            assert(text::str_views(r@) =~= was.push(s@));
            i += 1;
            assert(all.take(i as int) =~= all.take(i - 1).push(all[i - 1]));
        }
        assert(all.take(i as int) =~= all);
        r
    }
}

impl<F> InjectionChain<FnInjection<F>> {
    /// Adds a function as an injection at the end.
    pub fn add_fn(&mut self, name: String, func: F)
        ensures
            final(self)@ == old(self)@.push((FnInjection { label: name, func })),
    {
        self.add(FnInjection::new(name, func));
    }
}

// ---------------------------------------------------------------------------
// Laws
// ---------------------------------------------------------------------------

/// What is appended comes after what the last message says, as text of its own where the
/// message is made of parts.
pub proof fn appended_text_comes_last(messages: Seq<MessageModel>, s: Seq<char>)
    requires
        messages.len() > 0,
    ensures
        (messages.last().content matches ContentModel::Text(t) ==> with_appended(
            messages,
            s,
        ).last().content == ContentModel::Text(t + s)),
        (messages.last().content matches ContentModel::Blocks(v) ==> with_appended(
            messages,
            s,
        ).last().content == ContentModel::Blocks(v.push(BlockModel::Text(s)))),
        with_appended(messages, s).drop_last() == messages.drop_last(),
{
}

/// What is prepended comes before what the first message of the user says.
pub proof fn prepended_text_comes_first(messages: Seq<MessageModel>, k: int, s: Seq<char>)
    requires
        0 <= k < messages.len(),
        messages[k].role == "user"@,
        forall|i: int| 0 <= i < k ==> (#[trigger] messages[i]).role != "user"@,
    ensures
        (messages[k].content matches ContentModel::Text(t) ==> with_prepended(
            messages,
            s,
        )[k].content == ContentModel::Text(s + t)),
        (messages[k].content matches ContentModel::Blocks(v) ==> with_prepended(
            messages,
            s,
        )[k].content == ContentModel::Blocks(seq![BlockModel::Text(s)] + v)),
{
    the_first_user_is_found(messages, k);
}

/// Without a message of the user nothing is prepended.
pub proof fn without_a_user_nothing_is_prepended(messages: Seq<MessageModel>, s: Seq<char>)
    requires
        forall|i: int| 0 <= i < messages.len() ==> (#[trigger] messages[i]).role != "user"@,
    ensures
        with_prepended(messages, s) == messages,
    decreases messages.len(),
{
    if messages.len() > 0 {
        let rest = messages.skip(1);
        assert forall|i: int| 0 <= i < rest.len() implies (#[trigger] rest[i]).role != "user"@ by {
            assert(rest[i] == messages[i + 1]);
        }
        without_a_user_nothing_is_prepended(rest, s);
        first_user_bounds(rest);
        if first_user(rest) < rest.len() {
            the_found_message_is_of_the_user(rest);
        }
    }
}

proof fn the_found_message_is_of_the_user(messages: Seq<MessageModel>)
    requires
        first_user(messages) < messages.len(),
    ensures
        messages[first_user(messages)].role == "user"@,
    decreases messages.len(),
{
    first_user_bounds(messages);
    if messages[0].role != "user"@ {
        first_user_bounds(messages.skip(1));
        the_found_message_is_of_the_user(messages.skip(1));
    }
}

proof fn the_first_user_is_found(messages: Seq<MessageModel>, k: int)
    requires
        0 <= k < messages.len(),
        messages[k].role == "user"@,
        forall|i: int| 0 <= i < k ==> (#[trigger] messages[i]).role != "user"@,
    ensures
        first_user(messages) == k,
    decreases messages.len(),
{
    if k > 0 {
        let rest = messages.skip(1);
        assert(rest[k - 1] == messages[k]);
        assert forall|i: int| 0 <= i < k - 1 implies (#[trigger] rest[i]).role != "user"@ by {
            assert(rest[i] == messages[i + 1]);
        }
        the_first_user_is_found(rest, k - 1);
    }
}

/// A reminder stands between its marks, each on a line of its own.
pub proof fn reminders_stand_between_their_marks(reminder: Seq<char>)
    ensures
        reminder_text(reminder) == "\n<vibe-working-agent-system>\n"@ + reminder
            + "\n</vibe-working-agent-system>"@,
{
}

/// The text of a message is its text, or the texts of its parts with a space between them,
/// whatever else stands between them.
pub proof fn messages_say_their_texts(s: Seq<char>, t: Seq<char>, other: JsonTree)
    ensures
        text_of(ContentModel::Text(s)) == s,
        text_of(ContentModel::Blocks(seq![BlockModel::Text(s)])) == s,
        text_of(
            ContentModel::Blocks(
                seq![BlockModel::Text(s), BlockModel::Other(other), BlockModel::Text(t)],
            ),
        ) == s + " "@ + t,
        text_of(ContentModel::Blocks(seq![BlockModel::Other(other)])) == Seq::<char>::empty(),
{
    reveal_with_fuel(block_texts, 4);
    reveal_with_fuel(text::joined, 3);
    let one = seq![BlockModel::Text(s)];
    assert(one.drop_last() =~= seq![]);
    assert(block_texts(one) =~= seq![s]);
    let none = seq![BlockModel::Other(other)];
    assert(none.drop_last() =~= seq![]);
    assert(block_texts(none) =~= seq![]);
    let three = seq![BlockModel::Text(s), BlockModel::Other(other), BlockModel::Text(t)];
    assert(three.drop_last() =~= seq![BlockModel::Text(s), BlockModel::Other(other)]);
    assert(three.drop_last().drop_last() =~= one);
    assert(block_texts(three) =~= seq![s, t]);
    assert(seq![s, t].drop_last() =~= seq![s]);
    assert(seq![s, t].skip(1) =~= seq![t]);
    assert(text::joined(seq![s], " "@) =~= s);
    assert(text::joined(seq![s, t], " "@) =~= s + " "@ + t);
}

/// Injections work one after the other, each on what the one before it left.
pub proof fn injections_work_in_turn<I, J: ContextInjection<I>>(
    chain: Seq<J>,
    injection: J,
    internals: I,
    before: Vec<Message>,
    mid: Vec<Message>,
    after: Vec<Message>,
)
    requires
        chain_may_turn(chain, internals, before, mid),
        injection.may_turn(internals, mid, after),
    ensures
        chain_may_turn(chain.push(injection), internals, before, after),
        chain_may_turn(Seq::<J>::empty(), internals, before, before),
        before != after ==> !chain_may_turn(Seq::<J>::empty(), internals, before, after),
{
    assert(chain.push(injection).drop_last() =~= chain);
    assert(chain.push(injection).last() == injection);
}

} // verus!
