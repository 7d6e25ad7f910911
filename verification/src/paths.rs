//! Paths as texts, with slashes between their parts.

use vstd::prelude::*;

use crate::text;

verus! {

/// The parts of a path that name something.
pub open spec fn names_of(parts: Seq<Seq<char>>) -> Seq<Seq<char>>
    decreases parts.len(),
{
    if parts.len() == 0 {
        seq![]
    } else if parts.last().len() == 0 || parts.last() == "."@ {
        names_of(parts.drop_last())
    } else {
        parts
    }
}

/// The file that a path names: its last part, but for empty parts and dots.
/// There is none where that part leads upwards.
pub open spec fn file_name(path: Seq<char>) -> Option<Seq<char>> {
    let names = names_of(text::pieces(path, '/'));
    if names.len() == 0 || names.last() == ".."@ {
        None
    } else {
        Some(names.last())
    }
}

/// The file that a path names.
pub fn base_name(path: &str) -> (r: Option<String>)
    ensures
        match r {
            Some(s) => file_name(path@) == Some(s@),
            None => file_name(path@) is None,
        },
{
    let parts = text::split(path, '/');
    let ghost all = text::pieces(path@, '/');
    let mut n: usize = parts.len();
    assert(all.take(n as int) =~= all);
    while n > 0
        invariant
            n <= parts.len(),
            text::views(parts@) == all,
            all == text::pieces(path@, '/'),
            names_of(all) == names_of(all.take(n as int)),
        decreases n,
    {
        let ghost here = all.take(n as int);
        assert(here.last() == parts@[n - 1]@);
        assert(here.drop_last() =~= all.take(n - 1));
        let last = parts[n - 1].as_str();
        if !last.is_empty() && !text::same(last, ".") {
            if text::same(last, "..") {
                return None;
            }
            return Some(last.to_owned());
        }
        n -= 1;
    }
    None
}

/// Where a character last stands in a text; before it, where it does not.
pub open spec fn last_index_of(s: Seq<char>, c: char) -> int
    decreases s.len(),
{
    if s.len() == 0 {
        -1
    } else if s.last() == c {
        s.len() - 1
    } else {
        last_index_of(s.drop_last(), c)
    }
}

/// What stands behind the last dot of a file's name. A name without a dot, or
/// with one at its beginning only, has none.
pub open spec fn extension_of(path: Seq<char>) -> Option<Seq<char>> {
    match file_name(path) {
        Some(name) => {
            let k = last_index_of(name, '.');
            if k <= 0 {
                None
            } else {
                Some(name.skip(k + 1))
            }
        },
        None => None,
    }
}

/// What stands behind the last dot of a file's name.
pub fn extension(path: &str) -> (r: Option<String>)
    ensures
        match r {
            Some(s) => extension_of(path@) == Some(s@),
            None => extension_of(path@) is None,
        },
{
    let name = match base_name(path) {
        Some(s) => s,
        None => {
            return None;
        },
    };
    let v = text::chars_of(name.as_str());
    let mut n: usize = v.len();
    assert(v@.take(n as int) =~= v@);
    while n > 0 && v[n - 1] != '.'
        invariant
            n <= v.len(),
            last_index_of(v@, '.') == last_index_of(v@.take(n as int), '.'),
        decreases n,
    {
        assert(v@.take(n as int).drop_last() =~= v@.take(n - 1));
        n -= 1;
    }
    assert(n > 0 ==> v@.take(n as int).last() == v@[n - 1]);
    if n <= 1 {
        return None;
    }
    assert(v@.subrange(n as int, v.len() as int) =~= v@.skip(n as int));
    Some(text::text_of(&v, n, v.len()))
}

/// Whether a path begins at the root.
pub fn is_absolute(path: &str) -> (r: bool)
    ensures
        r == (path@.len() > 0 && path@[0] == '/'),
{
    text::starts_with_char(path, '/')
}

// ---------------------------------------------------------------------------
// Laws
// ---------------------------------------------------------------------------

/// The name of a file is what stands behind the last slash of its path.
pub proof fn names_stand_behind_the_last_slash(dir: Seq<char>, name: Seq<char>)
    requires
        name.len() > 0,
        name != "."@,
        name != ".."@,
        forall|i: int| 0 <= i < name.len() ==> #[trigger] name[i] != '/',
    ensures
        file_name(name) == Some(name),
        file_name(dir + seq!['/'] + name) == Some(name),
{
    text::the_last_piece_is_found(dir, '/', name);
    let one = text::pieces(name, '/');
    assert(one.last() == name);
    let more = text::pieces(dir + seq!['/'] + name, '/');
    assert(more.last() == name);
    assert(names_of(one) == one);
    assert(names_of(more) == more);
}

/// The kind of a file is what stands behind the last dot of its name, unless the name begins
/// with that dot.
pub proof fn kinds_stand_behind_the_last_dot(dir: Seq<char>, stem: Seq<char>, kind: Seq<char>)
    requires
        stem.len() > 0,
        forall|i: int| 0 <= i < stem.len() ==> #[trigger] stem[i] != '/',
        kind.len() > 0,
        forall|i: int| 0 <= i < kind.len() ==> #[trigger] kind[i] != '/' && kind[i] != '.',
    ensures
        extension_of(stem + seq!['.'] + kind) == Some(kind),
        extension_of(dir + seq!['/'] + (stem + seq!['.'] + kind)) == Some(kind),
        extension_of(seq!['.'] + kind) == None::<Seq<char>>,
        extension_of(kind) == None::<Seq<char>>,
{
    let name = stem + seq!['.'] + kind;
    reveal_strlit(".");
    reveal_strlit("..");
    assert("."@.len() == 1 && "."@[0] == '.');
    assert(".."@.len() == 2 && ".."@[1] == '.');
    assert(name.last() == kind.last());
    assert(name.len() > 2);
    names_stand_behind_the_last_slash(dir, name);
    the_last_dot_is_found(stem, kind);
    assert(name.skip(stem.len() as int + 1) =~= kind);
    let hidden = seq!['.'] + kind;
    assert(hidden.last() == kind.last());
    names_stand_behind_the_last_slash(dir, hidden);
    assert(hidden =~= Seq::<char>::empty() + seq!['.'] + kind);
    the_last_dot_is_found(Seq::empty(), kind);
    assert(kind.last() != '.');
    names_stand_behind_the_last_slash(dir, kind);
    no_dot_is_found(kind);
}

proof fn no_dot_is_found(s: Seq<char>)
    requires
        forall|i: int| 0 <= i < s.len() ==> #[trigger] s[i] != '.',
    ensures
        last_index_of(s, '.') == -1,
    decreases s.len(),
{
    if s.len() > 0 {
        assert(s.last() == s[s.len() - 1]);
        assert forall|i: int| 0 <= i < s.drop_last().len() implies #[trigger] s.drop_last()[i]
            != '.' by {
            assert(s.drop_last()[i] == s[i]);
        }
        no_dot_is_found(s.drop_last());
    }
}

proof fn the_last_dot_is_found(a: Seq<char>, b: Seq<char>)
    requires
        forall|i: int| 0 <= i < b.len() ==> #[trigger] b[i] != '.',
    ensures
        last_index_of(a + seq!['.'] + b, '.') == a.len(),
    decreases b.len(),
{
    let s = a + seq!['.'] + b;
    if b.len() == 0 {
        assert(s.last() == '.');
    } else {
        assert(s.last() == b[b.len() - 1]);
        assert(s.drop_last() =~= a + seq!['.'] + b.drop_last());
        assert forall|i: int| 0 <= i < b.drop_last().len() implies #[trigger] b.drop_last()[i]
            != '.' by {
            assert(b.drop_last()[i] == b[i]);
        }
        the_last_dot_is_found(a, b.drop_last());
    }
}

} // verus!
