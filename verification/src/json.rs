//! JSON values. `serde_json` reads and prints the text; the library works on a
//! tree of its own.

use vstd::prelude::*;

use crate::text;

verus! {

// ---------------------------------------------------------------------------
// Trees
// ---------------------------------------------------------------------------

/// What a JSON value holds. The entries of an object stand in the order in
/// which the object gives them out.
pub enum JsonTree {
    Null,
    Bool(bool),
    Number(serde_json::Number),
    Text(Seq<char>),
    Array(Seq<JsonTree>),
    Object(Seq<(Seq<char>, JsonTree)>),
}

/// A JSON value of the library.
pub enum Json {
    Null,
    Bool(bool),
    Number(serde_json::Number),
    Text(String),
    Array(Vec<Json>),
    Object(Vec<(String, Json)>),
}

/// The first entry under a key.
pub open spec fn lookup(entries: Seq<(Seq<char>, JsonTree)>, key: Seq<char>) -> Option<JsonTree>
    decreases entries.len(),
{
    if entries.len() == 0 {
        None
    } else if entries[0].0 == key {
        Some(entries[0].1)
    } else {
        lookup(entries.skip(1), key)
    }
}

impl JsonTree {
    /// The member of an object under a key.
    pub open spec fn field(self, key: Seq<char>) -> Option<JsonTree> {
        match self {
            JsonTree::Object(entries) => lookup(entries, key),
            _ => None,
        }
    }

    /// The text, of a text.
    pub open spec fn text(self) -> Option<Seq<char>> {
        match self {
            JsonTree::Text(s) => Some(s),
            _ => None,
        }
    }

    /// The number, of a number without sign and fraction.
    pub open spec fn whole(self) -> Option<u64> {
        match self {
            JsonTree::Number(n) => number_whole(n),
            _ => None,
        }
    }

    /// The items, of an array.
    pub open spec fn items(self) -> Option<Seq<JsonTree>> {
        match self {
            JsonTree::Array(v) => Some(v),
            _ => None,
        }
    }

    /// The text under a key.
    pub open spec fn text_field(self, key: Seq<char>) -> Option<Seq<char>> {
        match self.field(key) {
            Some(t) => t.text(),
            None => None,
        }
    }

    /// The text under a key, empty where there is none.
    pub open spec fn text_or_empty(self, key: Seq<char>) -> Seq<char> {
        match self.text_field(key) {
            Some(s) => s,
            None => seq![],
        }
    }

    /// The truth value under a key; false where there is none.
    pub open spec fn flag(self, key: Seq<char>) -> bool {
        match self.field(key) {
            Some(JsonTree::Bool(b)) => b,
            _ => false,
        }
    }

    /// The truth value under a key, and another where there is none.
    pub open spec fn flag_or(self, key: Seq<char>, default: bool) -> bool {
        match self.field(key) {
            Some(JsonTree::Bool(b)) => b,
            _ => default,
        }
    }

    /// The whole number under a key.
    pub open spec fn whole_field(self, key: Seq<char>) -> Option<u64> {
        match self.field(key) {
            Some(t) => t.whole(),
            None => None,
        }
    }
}

impl Json {
    /// The tree that the value holds.
    pub open spec fn view(&self) -> JsonTree
        decreases self,
    {
        match self {
            Json::Null => JsonTree::Null,
            Json::Bool(b) => JsonTree::Bool(*b),
            Json::Number(n) => JsonTree::Number(*n),
            Json::Text(s) => JsonTree::Text(s@),
            Json::Array(v) => JsonTree::Array(
                Seq::new(
                    v@.len(),
                    |i: int|
                        if 0 <= i < v@.len() {
                            v@[i].view()
                        } else {
                            JsonTree::Null
                        },
                ),
            ),
            Json::Object(v) => JsonTree::Object(
                Seq::new(
                    v@.len(),
                    |i: int|
                        if 0 <= i < v@.len() {
                            (v@[i].0@, v@[i].1.view())
                        } else {
                            (seq![], JsonTree::Null)
                        },
                ),
            ),
        }
    }

    /// The member of an object under a key.
    pub fn get(&self, key: &str) -> (r: Option<&Json>)
        ensures
            match r {
                Some(j) => self@.field(key@) == Some(j@),
                None => self@.field(key@) is None,
            },
    {
        match self {
            Json::Object(v) => {
                let ghost entries = self@->Object_0;
                let mut i: usize = 0;
                assert(entries.skip(0) =~= entries);
                while i < v.len()
                    invariant
                        i <= v.len(),
                        self@ == JsonTree::Object(entries),
                        self == Json::Object(*v),
                        entries.len() == v.len(),
                        lookup(entries, key@) == lookup(entries.skip(i as int), key@),
                    decreases v.len() - i,
                {
                    assert(entries[i as int] == (v@[i as int].0@, v@[i as int].1@));
                    if text::same(v[i].0.as_str(), key) {
                        return Some(&v[i].1);
                    }
                    assert(entries.skip(i as int).skip(1) =~= entries.skip(i + 1));
                    i += 1;
                }
                None
            },
            _ => None,
        }
    }

    /// The text, of a text.
    pub fn as_text(&self) -> (r: Option<&String>)
        ensures
            match r {
                Some(s) => self@.text() == Some(s@),
                None => self@.text() is None,
            },
    {
        match self {
            Json::Text(s) => Some(s),
            _ => None,
        }
    }

    /// The number, of a number without sign and fraction.
    pub fn as_whole(&self) -> (r: Option<u64>)
        ensures
            r == self@.whole(),
    {
        match self {
            Json::Number(n) => whole_of_number(n),
            _ => None,
        }
    }

    /// The items, of an array.
    pub fn as_array(&self) -> (r: Option<&Vec<Json>>)
        ensures
            match r {
                Some(v) => self@ == JsonTree::Array(trees(v@)),
                None => self@.items() is None,
            },
    {
        match self {
            Json::Array(v) => {
                assert(self@->Array_0 =~= trees(v@));
                Some(v)
            },
            _ => None,
        }
    }

    /// The text under a key.
    pub fn get_text(&self, key: &str) -> (r: Option<String>)
        ensures
            match r {
                Some(s) => self@.text_field(key@) == Some(s@),
                None => self@.text_field(key@) is None,
            },
    {
        match self.get(key) {
            Some(j) => match j.as_text() {
                Some(s) => Some(s.clone()),
                None => None,
            },
            None => None,
        }
    }

    /// The text under a key, empty where there is none.
    pub fn text_or_empty(&self, key: &str) -> (r: String)
        ensures
            r@ == self@.text_or_empty(key@),
    {
        match self.get_text(key) {
            Some(s) => s,
            None => {
                let s = String::new();
                assert(s@ =~= seq![]);
                s
            },
        }
    }

    /// The truth value under a key; false where there is none.
    pub fn flag(&self, key: &str) -> (r: bool)
        ensures
            r == self@.flag(key@),
    {
        match self.get(key) {
            Some(Json::Bool(b)) => *b,
            _ => false,
        }
    }

    /// The truth value under a key, and another where there is none.
    pub fn flag_or(&self, key: &str, default: bool) -> (r: bool)
        ensures
            r == self@.flag_or(key@, default),
    {
        match self.get(key) {
            Some(Json::Bool(b)) => *b,
            _ => default,
        }
    }

    /// The whole number under a key.
    pub fn get_whole(&self, key: &str) -> (r: Option<u64>)
        ensures
            r == self@.whole_field(key@),
    {
        match self.get(key) {
            Some(j) => j.as_whole(),
            None => None,
        }
    }

    /// A value with the same tree.
    pub fn copy(&self) -> (r: Json)
        ensures
            r@ == self@,
        decreases self,
    {
        match self {
            Json::Null => Json::Null,
            Json::Bool(b) => Json::Bool(*b),
            Json::Number(n) => Json::Number(copy_number(n)),
            Json::Text(s) => Json::Text(s.clone()),
            Json::Array(v) => {
                let mut out: Vec<Json> = Vec::new();
                let mut i: usize = 0;
                while i < v.len()
                    invariant
                        i <= v.len(),
                        self == Json::Array(*v),
                        out.len() == i,
                        forall|j: int| 0 <= j < i ==> (#[trigger] out@[j])@ == v@[j]@,
                    decreases v.len() - i,
                {
                    assert(decreases_to!(self => self->Array_0));
                    assert(decreases_to!(v => v@));
                    assert(decreases_to!(v@ => v@[i as int]));
                    out.push(v[i].copy());
                    i += 1;
                }
                let r = Json::Array(out);
                assert(r@->Array_0 =~= self@->Array_0);
                r
            },
            Json::Object(v) => {
                let mut out: Vec<(String, Json)> = Vec::new();
                let mut i: usize = 0;
                while i < v.len()
                    invariant
                        i <= v.len(),
                        self == Json::Object(*v),
                        out.len() == i,
                        forall|j: int|
                            0 <= j < i ==> (#[trigger] out@[j]).0@ == v@[j].0@ && out@[j].1@
                                == v@[j].1@,
                    decreases v.len() - i,
                {
                    assert(decreases_to!(self => self->Object_0));
                    assert(decreases_to!(v => v@));
                    assert(decreases_to!(v@ => v@[i as int]));
                    assert(decreases_to!(v@[i as int] => v@[i as int].1));
                    out.push((v[i].0.clone(), v[i].1.copy()));
                    i += 1;
                }
                let r = Json::Object(out);
                assert(r@->Object_0 =~= self@->Object_0);
                r
            },
        }
    }
}

/// The trees that a list of values holds.
pub open spec fn trees(v: Seq<Json>) -> Seq<JsonTree> {
    Seq::new(v.len(), |i: int| v[i]@)
}

} // verus!

verus! {

// ---------------------------------------------------------------------------
// serde_json
// ---------------------------------------------------------------------------

/// A number of `serde_json`.
#[verifier::external_type_specification]
#[verifier::external_body]
pub struct ExNumber(serde_json::Number);

/// A value of `serde_json`.
#[verifier::external_type_specification]
#[verifier::external_body]
pub struct ExValue(serde_json::Value);

/// The reason why `serde_json` refused a text.
#[verifier::external_type_specification]
#[verifier::external_body]
pub struct ExError(serde_json::Error);

/// What a value of `serde_json` holds.
pub uninterp spec fn tree(v: serde_json::Value) -> JsonTree;

/// The number without sign and fraction that a number of `serde_json` holds.
pub uninterp spec fn number_whole(n: serde_json::Number) -> Option<u64>;

/// What a text says, read as one JSON value; nothing where it is none.
pub uninterp spec fn read(s: Seq<char>) -> Option<JsonTree>;

/// The compact text of a value.
pub uninterp spec fn printed(t: JsonTree) -> Seq<char>;

/// `serde_json::Number::as_u64`: the number, where it is a `u64`.
#[verifier::external_body]
fn whole_of_number(n: &serde_json::Number) -> (r: Option<u64>)
    ensures
        r == number_whole(*n),
{
    n.as_u64()
}

/// `serde_json::Number::from(u64)`: the number is a `u64`, the one given.
#[verifier::external_body]
pub(crate) fn number_of_whole(n: u64) -> (r: serde_json::Number)
    ensures
        number_whole(r) == Some(n),
{
    serde_json::Number::from(n)
}

/// `serde_json::Number::clone`: the same number.
#[verifier::external_body]
fn copy_number(n: &serde_json::Number) -> (r: serde_json::Number)
    ensures
        r == *n,
{
    n.clone()
}

/// One level of a value of `serde_json`.
pub(crate) enum Level {
    Null,
    Bool(bool),
    Number(serde_json::Number),
    Text(String),
    Array(Vec<serde_json::Value>),
    Object(Vec<(String, serde_json::Value)>),
}

impl Level {
    /// Whether this is the topmost level of a tree.
    spec fn tops(self, t: JsonTree) -> bool {
        match (self, t) {
            (Level::Null, JsonTree::Null) => true,
            (Level::Bool(a), JsonTree::Bool(b)) => a == b,
            (Level::Number(a), JsonTree::Number(b)) => a == b,
            (Level::Text(a), JsonTree::Text(b)) => a@ == b,
            (Level::Array(a), JsonTree::Array(b)) => {
                &&& a@.len() == b.len()
                &&& forall|i: int| 0 <= i < b.len() ==> tree(#[trigger] a@[i]) == b[i]
            },
            (Level::Object(a), JsonTree::Object(b)) => {
                &&& a@.len() == b.len()
                &&& forall|i: int|
                    0 <= i < b.len() ==> (#[trigger] a@[i]).0@ == b[i].0 && tree(a@[i].1) == b[i].1
            },
            _ => false,
        }
    }
}

/// The variants of `serde_json::Value` taken apart: the topmost level of the
/// tree, the entries of an object in the order of its map.
#[verifier::external_body]
fn open_value(v: serde_json::Value) -> (r: Level)
    ensures
        r.tops(tree(v)),
{
    match v {
        serde_json::Value::Null => Level::Null,
        serde_json::Value::Bool(b) => Level::Bool(b),
        serde_json::Value::Number(n) => Level::Number(n),
        serde_json::Value::String(s) => Level::Text(s),
        serde_json::Value::Array(a) => Level::Array(a),
        serde_json::Value::Object(m) => Level::Object(m.into_iter().collect()),
    }
}

/// The variants of `serde_json::Value` but the object put together: the level
/// is the topmost of the new tree.
#[verifier::external_body]
fn close_value(l: Level) -> (r: serde_json::Value)
    requires
        !(l is Object),
    ensures
        l.tops(tree(r)),
{
    match l {
        Level::Null => serde_json::Value::Null,
        Level::Bool(b) => serde_json::Value::Bool(b),
        Level::Number(n) => serde_json::Value::Number(n),
        Level::Text(s) => serde_json::Value::String(s),
        Level::Array(a) => serde_json::Value::Array(a),
        Level::Object(m) => serde_json::Value::Object(m.into_iter().collect()),
    }
}

/// Whether a text comes before another: at the first difference its character
/// is the smaller one, or it ends there.
pub open spec fn before(a: Seq<char>, b: Seq<char>) -> bool
    decreases a.len(),
{
    if b.len() == 0 {
        false
    } else if a.len() == 0 {
        true
    } else if a[0] == b[0] {
        before(a.skip(1), b.skip(1))
    } else {
        a[0] < b[0]
    }
}

/// The entries of a map whose keys ascend, with one entry put in: in place of
/// the entry of the same key, or else before the first larger key.
pub open spec fn with_entry(
    entries: Seq<(Seq<char>, JsonTree)>,
    key: Seq<char>,
    t: JsonTree,
) -> Seq<(Seq<char>, JsonTree)>
    decreases entries.len(),
{
    if entries.len() == 0 {
        seq![(key, t)]
    } else if entries[0].0 == key {
        seq![(key, t)] + entries.skip(1)
    } else if before(key, entries[0].0) {
        seq![(key, t)] + entries
    } else {
        seq![entries[0]] + with_entry(entries.skip(1), key, t)
    }
}

/// `serde_json::Map::new`: an object without entries.
#[verifier::external_body]
fn empty_object() -> (r: serde_json::Value)
    ensures
        tree(r) == JsonTree::Object(seq![]),
{
    serde_json::Value::Object(serde_json::Map::new())
}

/// `serde_json::Map::insert` on the map of an object. The map is a `BTreeMap`,
/// so its keys ascend, and an entry of the same key is replaced.
#[verifier::external_body]
fn insert_entry(v: &mut serde_json::Value, key: String, x: serde_json::Value)
    requires
        tree(*old(v)) is Object,
    ensures
        tree(*final(v)) == JsonTree::Object(with_entry(tree(*old(v))->Object_0, key@, tree(x))),
{
    if let serde_json::Value::Object(m) = v {
        m.insert(key, x);
    }
}

/// Whether a tree is free of numbers and at most `depth` levels deep.
pub open spec fn numberless(t: JsonTree, depth: nat) -> bool
    decreases depth,
{
    if depth == 0 {
        false
    } else {
        match t {
            JsonTree::Number(_) => false,
            JsonTree::Array(v) => forall|i: int|
                0 <= i < v.len() ==> numberless(#[trigger] v[i], (depth - 1) as nat),
            JsonTree::Object(v) => forall|i: int|
                0 <= i < v.len() ==> numberless((#[trigger] v[i]).1, (depth - 1) as nat),
            _ => true,
        }
    }
}

/// `serde_json::from_str` into a `serde_json::Value`: a function of the text.
#[verifier::external_body]
fn read_value(s: &str) -> (r: Result<serde_json::Value, serde_json::Error>)
    ensures
        match r {
            Ok(v) => read(s@) == Some(tree(v)),
            Err(_) => read(s@) is None,
        },
{
    serde_json::from_str(s)
}

/// `to_string` of a `serde_json::Value`: its compact text, a function of what
/// it holds. Reading the text gives the same tree back, claimed here of trees
/// without numbers that stay under the reader's limit on nesting.
#[verifier::external_body]
fn print_value(v: &serde_json::Value) -> (r: String)
    ensures
        r@ == printed(tree(*v)),
        numberless(tree(*v), 100) ==> read(r@) == Some(tree(*v)),
{
    v.to_string()
}

/// Why a text is no JSON value.
pub struct JsonError {
    pub message: String,
}

/// `to_string` of a `serde_json::Error`, its message. Nothing is claimed of
/// the wording.
#[verifier::external_body]
fn error_message(e: &serde_json::Error) -> (r: String)
{
    e.to_string()
}

/// The value with the tree of a value of `serde_json`.
fn convert(v: serde_json::Value) -> (r: Json)
    ensures
        r@ == tree(v),
    decreases tree(v),
{
    let ghost t = tree(v);
    match open_value(v) {
        Level::Null => Json::Null,
        Level::Bool(b) => Json::Bool(b),
        Level::Number(n) => Json::Number(n),
        Level::Text(s) => Json::Text(s),
        Level::Array(items) => {
            let mut out: Vec<Json> = Vec::new();
            let ghost c = t->Array_0;
            for x in it: items
                invariant
                    t == tree(v),
                    t is Array,
                    c == t->Array_0,
                    it.seq() == items@,
                    items@.len() == c.len(),
                    forall|i: int| 0 <= i < c.len() ==> tree(#[trigger] items@[i]) == c[i],
                    out.len() == it.index(),
                    forall|i: int| 0 <= i < out.len() ==> (#[trigger] out@[i])@ == c[i],
            {
                assert(decreases_to!(t => t->Array_0));
                assert(decreases_to!(c => c[it.index() as int]));
                out.push(convert(x));
            }
            let r = Json::Array(out);
            assert(r@->Array_0 =~= c);
            r
        },
        Level::Object(items) => {
            let mut out: Vec<(String, Json)> = Vec::new();
            let ghost c = t->Object_0;
            for x in it: items
                invariant
                    t == tree(v),
                    t is Object,
                    c == t->Object_0,
                    it.seq() == items@,
                    items@.len() == c.len(),
                    forall|i: int|
                        0 <= i < c.len() ==> (#[trigger] items@[i]).0@ == c[i].0 && tree(items@[i].1)
                            == c[i].1,
                    out.len() == it.index(),
                    forall|i: int|
                        0 <= i < out.len() ==> (#[trigger] out@[i]).0@ == c[i].0 && out@[i].1@
                            == c[i].1,
            {
                assert(decreases_to!(t => t->Object_0));
                assert(decreases_to!(c => c[it.index() as int]));
                assert(decreases_to!(c[it.index() as int] => c[it.index() as int].1));
                let (k, w) = x;
                out.push((k, convert(w)));
            }
            let r = Json::Object(out);
            assert(r@->Object_0 =~= c);
            r
        },
    }
}

/// Reads a text as one JSON value.
pub fn parse(s: &str) -> (r: Result<Json, JsonError>)
    ensures
        match r {
            Ok(j) => read(s@) == Some(j@),
            Err(_) => read(s@) is None,
        },
{
    match read_value(s) {
        Ok(v) => Ok(convert(v)),
        Err(e) => Err(JsonError { message: error_message(&e) }),
    }
}

/// A tree as a map with ascending keys holds it: of entries with the same key
/// the last one stays, and the rest is put in order, at every level.
pub open spec fn settled(t: JsonTree) -> JsonTree
    decreases t, 0nat,
{
    match t {
        JsonTree::Array(v) => JsonTree::Array(
            Seq::new(
                v.len(),
                |i: int|
                    if 0 <= i < v.len() {
                        settled(v[i])
                    } else {
                        JsonTree::Null
                    },
            ),
        ),
        JsonTree::Object(v) => JsonTree::Object(settled_entries(v)),
        _ => t,
    }
}

/// Entries put one after the other into a map with ascending keys.
pub open spec fn settled_entries(v: Seq<(Seq<char>, JsonTree)>) -> Seq<(Seq<char>, JsonTree)>
    decreases v, v.len(),
{
    if v.len() == 0 {
        seq![]
    } else {
        proof {
            assert(decreases_to!(v => v[v.len() - 1]));
        }
        with_entry(settled_entries(v.drop_last()), v.last().0, settled(v.last().1))
    }
}

impl Json {
    /// The value of `serde_json` with this tree, its objects settled.
    fn to_value(&self) -> (r: serde_json::Value)
        ensures
            tree(r) == settled(self@),
        decreases self,
    {
        match self {
            Json::Null => close_value(Level::Null),
            Json::Bool(b) => close_value(Level::Bool(*b)),
            Json::Number(n) => close_value(Level::Number(copy_number(n))),
            Json::Text(s) => close_value(Level::Text(s.clone())),
            Json::Array(v) => {
                let mut out: Vec<serde_json::Value> = Vec::new();
                let mut i: usize = 0;
                while i < v.len()
                    invariant
                        i <= v.len(),
                        self == Json::Array(*v),
                        out.len() == i,
                        forall|j: int| 0 <= j < i ==> tree(#[trigger] out@[j]) == settled(v@[j]@),
                    decreases v.len() - i,
                {
                    assert(decreases_to!(self => self->Array_0));
                    assert(decreases_to!(v => v@));
                    assert(decreases_to!(v@ => v@[i as int]));
                    out.push(v[i].to_value());
                    i += 1;
                }
                let r = close_value(Level::Array(out));
                assert forall|j: int| 0 <= j < v@.len() implies tree(r)->Array_0[j]
                    == settled(self@)->Array_0[j] by {
                    assert(self@->Array_0[j] == v@[j]@);
                    assert(tree(out@[j]) == settled(v@[j]@));
                }
                assert(tree(r)->Array_0 =~= settled(self@)->Array_0);
                r
            },
            Json::Object(v) => {
                let mut r = empty_object();
                let mut i: usize = 0;
                let ghost entries = self@->Object_0;
                assert(entries.take(0) =~= seq![]);
                while i < v.len()
                    invariant
                        i <= v.len(),
                        self == Json::Object(*v),
                        self@ == JsonTree::Object(entries),
                        entries.len() == v.len(),
                        tree(r) == JsonTree::Object(settled_entries(entries.take(i as int))),
                    decreases v.len() - i,
                {
                    assert(decreases_to!(self => self->Object_0));
                    assert(decreases_to!(v => v@));
                    assert(decreases_to!(v@ => v@[i as int]));
                    assert(decreases_to!(v@[i as int] => v@[i as int].1));
                    let x = v[i].1.to_value();
                    assert(entries[i as int] == (v@[i as int].0@, v@[i as int].1@));
                    assert(entries.take(i + 1).drop_last() =~= entries.take(i as int));
                    assert(entries.take(i + 1).last() == entries[i as int]);
                    insert_entry(&mut r, v[i].0.clone(), x);
                    i += 1;
                }
                assert(entries.take(i as int) =~= entries);
                r
            },
        }
    }

    /// The compact text of the value.
    pub fn to_text(&self) -> (r: String)
        ensures
            r@ == printed(settled(self@)),
            numberless(settled(self@), 100) ==> read(r@) == Some(settled(self@)),
    {
        print_value(&self.to_value())
    }
}

// ---------------------------------------------------------------------------
// Objects
// ---------------------------------------------------------------------------

/// The keys and trees of a list of entries.
pub open spec fn entry_views(v: Seq<(String, Json)>) -> Seq<(Seq<char>, JsonTree)> {
    Seq::new(v.len(), |i: int| (v[i].0@, v[i].1@))
}

/// An object of entries.
pub fn object(v: Vec<(String, Json)>) -> (r: Json)
    ensures
        r@ == JsonTree::Object(entry_views(v@)),
{
    let r = Json::Object(v);
    assert(r@->Object_0 =~= entry_views(v@));
    r
}

/// An entry of an object.
pub fn entry(key: &str, value: Json) -> (r: (String, Json))
    ensures
        r.0@ == key@,
        r.1@ == value@,
{
    (key.to_owned(), value)
}

/// A text as a value.
pub fn text_value(s: &str) -> (r: Json)
    ensures
        r@ == JsonTree::Text(s@),
{
    Json::Text(s.to_owned())
}

/// A whole number as a value.
pub fn whole_value(n: u64) -> (r: Json)
    ensures
        r@.whole() == Some(n),
        r@ is Number,
{
    Json::Number(number_of_whole(n))
}

/// Under its key stands the entry that was put in; every other key keeps what
/// it had.
pub proof fn lookup_with_entry(
    entries: Seq<(Seq<char>, JsonTree)>,
    key: Seq<char>,
    t: JsonTree,
    k: Seq<char>,
)
    ensures
        lookup(with_entry(entries, key, t), k) == if k == key {
            Some(t)
        } else {
            lookup(entries, k)
        },
    decreases entries.len(),
{
    reveal_with_fuel(lookup, 2);
    let after = with_entry(entries, key, t);
    if entries.len() == 0 {
        assert(after.skip(1) =~= seq![]);
    } else if entries[0].0 == key {
        assert(after.skip(1) =~= entries.skip(1));
    } else if before(key, entries[0].0) {
        assert(after.skip(1) =~= entries);
    } else {
        lookup_with_entry(entries.skip(1), key, t, k);
        assert(after.skip(1) =~= with_entry(entries.skip(1), key, t));
    }
}

/// Under a key of settled entries stands the last entry of that key.
pub proof fn lookup_settled(v: Seq<(Seq<char>, JsonTree)>, k: Seq<char>)
    ensures
        lookup(settled_entries(v), k) == if v.len() == 0 {
            None
        } else if v.last().0 == k {
            Some(settled(v.last().1))
        } else {
            lookup(settled_entries(v.drop_last()), k)
        },
{
    if v.len() > 0 {
        lookup_with_entry(settled_entries(v.drop_last()), v.last().0, settled(v.last().1), k);
    }
}

/// Putting a tree without numbers into entries without numbers brings in none.
proof fn numberless_with_entry(
    entries: Seq<(Seq<char>, JsonTree)>,
    key: Seq<char>,
    t: JsonTree,
    depth: nat,
)
    requires
        forall|i: int| 0 <= i < entries.len() ==> numberless((#[trigger] entries[i]).1, depth),
        numberless(t, depth),
    ensures
        forall|i: int|
            0 <= i < with_entry(entries, key, t).len() ==> numberless(
                (#[trigger] with_entry(entries, key, t)[i]).1,
                depth,
            ),
    decreases entries.len(),
{
    if entries.len() > 0 && entries[0].0 != key && !before(key, entries[0].0) {
        let rest = entries.skip(1);
        assert forall|i: int| 0 <= i < rest.len() implies numberless(
            (#[trigger] rest[i]).1,
            depth,
        ) by {
            assert(rest[i] == entries[i + 1]);
        }
        numberless_with_entry(rest, key, t, depth);
        let after = with_entry(entries, key, t);
        assert forall|i: int| 0 <= i < after.len() implies numberless(
            (#[trigger] after[i]).1,
            depth,
        ) by {
            if i > 0 {
                assert(after[i] == with_entry(rest, key, t)[i - 1]);
            }
        }
    } else if entries.len() > 0 && entries[0].0 != key {
        let after = with_entry(entries, key, t);
        assert forall|i: int| 0 <= i < after.len() implies numberless(
            (#[trigger] after[i]).1,
            depth,
        ) by {
            if i > 0 {
                assert(after[i] == entries[i - 1]);
            }
        }
    }
}

/// Settling brings in no number and no level.
pub proof fn numberless_settled(t: JsonTree, depth: nat)
    requires
        numberless(t, depth),
    ensures
        numberless(settled(t), depth),
    decreases depth, 0nat,
{
    match t {
        JsonTree::Array(v) => {
            let w = settled(t)->Array_0;
            assert forall|i: int| 0 <= i < w.len() implies numberless(
                #[trigger] w[i],
                (depth - 1) as nat,
            ) by {
                assert(w[i] == settled(v[i]));
                numberless_settled(v[i], (depth - 1) as nat);
            }
        },
        JsonTree::Object(v) => {
            numberless_settled_entries(v, (depth - 1) as nat);
            assert(settled(t) == JsonTree::Object(settled_entries(v)));
            assert forall|i: int| 0 <= i < settled_entries(v).len() implies numberless(
                (#[trigger] settled_entries(v)[i]).1,
                (depth - 1) as nat,
            ) by {}
        },
        _ => {},
    }
}

/// Settling entries brings in no number and no level.
proof fn numberless_settled_entries(v: Seq<(Seq<char>, JsonTree)>, depth: nat)
    requires
        forall|i: int| 0 <= i < v.len() ==> numberless((#[trigger] v[i]).1, depth),
    ensures
        forall|i: int|
            0 <= i < settled_entries(v).len() ==> numberless(
                (#[trigger] settled_entries(v)[i]).1,
                depth,
            ),
    decreases depth, v.len() + 1,
{
    if v.len() > 0 {
        let rest = v.drop_last();
        assert forall|i: int| 0 <= i < rest.len() implies numberless(
            (#[trigger] rest[i]).1,
            depth,
        ) by {
            assert(rest[i] == v[i]);
        }
        numberless_settled_entries(rest, depth);
        assert(numberless(v[v.len() - 1].1, depth));
        numberless_settled(v.last().1, depth);
        numberless_with_entry(settled_entries(rest), v.last().0, settled(v.last().1), depth);
    }
}

/// A member of an object is what stands under its key first.
pub proof fn members_are_found(
    entries: Seq<(Seq<char>, JsonTree)>,
    key: Seq<char>,
    other: Seq<char>,
    t: JsonTree,
)
    requires
        other != key,
    ensures
        JsonTree::Object(seq![(key, t)] + entries).field(key) == Some(t),
        JsonTree::Object(seq![(other, t)] + entries).field(key) == JsonTree::Object(entries).field(
            key,
        ),
        JsonTree::Object(Seq::empty()).field(key) is None,
        JsonTree::Null.field(key) is None,
        JsonTree::Array(Seq::empty()).field(key) is None,
{
    assert((seq![(key, t)] + entries)[0] == (key, t));
    assert((seq![(other, t)] + entries)[0] == (other, t));
    assert((seq![(other, t)] + entries).skip(1) =~= entries);
}

/// A value is read as what it is, and as nothing else.
pub proof fn values_are_what_they_are(
    entries: Seq<(Seq<char>, JsonTree)>,
    key: Seq<char>,
    s: Seq<char>,
    b: bool,
    v: Seq<JsonTree>,
)
    ensures
        JsonTree::Text(s).text() == Some(s),
        JsonTree::Bool(b).text() is None,
        JsonTree::Null.text() is None,
        JsonTree::Array(v).items() == Some(v),
        JsonTree::Text(s).items() is None,
        JsonTree::Text(s).whole() is None,
        JsonTree::Object(seq![(key, JsonTree::Text(s))] + entries).text_field(key) == Some(s),
        JsonTree::Object(seq![(key, JsonTree::Text(s))] + entries).text_or_empty(key) == s,
        JsonTree::Object(seq![(key, JsonTree::Bool(b))] + entries).text_field(key) is None,
        JsonTree::Object(seq![(key, JsonTree::Bool(b))] + entries).flag(key) == b,
        JsonTree::Object(seq![(key, JsonTree::Bool(b))] + entries).flag_or(key, !b) == b,
        JsonTree::Object(seq![(key, JsonTree::Text(s))] + entries).flag_or(key, b) == b,
        !JsonTree::Null.flag(key),
        JsonTree::Null.flag_or(key, b) == b,
        JsonTree::Null.text_or_empty(key).len() == 0,
{
    assert((seq![(key, JsonTree::Text(s))] + entries)[0] == (key, JsonTree::Text(s)));
    assert((seq![(key, JsonTree::Bool(b))] + entries)[0] == (key, JsonTree::Bool(b)));
}

} // verus!
