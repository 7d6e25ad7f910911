//! Text as sequences of characters: the string operations that the rest of
//! the library is written with, each stated over `Seq<char>`.

use vstd::prelude::*;

verus! {

/// `String::push` of std: the character is appended to the text.
pub assume_specification[ String::push ](s: &mut String, c: char)
    ensures
        final(s)@ == old(s)@.push(c),
;

/// The characters of a text, one by one.
pub fn chars_of(s: &str) -> (v: Vec<char>)
    ensures
        v@ == s@,
{
    let mut v: Vec<char> = Vec::new();
    for c in it: s.chars()
        invariant
            it.seq() == s@,
            v@ == s@.take(it.index() as int),
    {
        v.push(c);
        assert(v@ =~= s@.take(it.index() + 1));
    }
    assert(v@ =~= s@);
    v
}

/// The text made of the characters from `from` up to `to`.
pub fn text_of(v: &Vec<char>, from: usize, to: usize) -> (s: String)
    requires
        from <= to <= v.len(),
    ensures
        s@ == v@.subrange(from as int, to as int),
{
    let mut s = String::new();
    let mut i: usize = from;
    assert(s@ =~= v@.subrange(from as int, from as int));
    while i < to
        invariant
            from <= i <= to <= v.len(),
            s@ == v@.subrange(from as int, i as int),
        decreases to - i,
    {
        s.push(v[i]);
        i += 1;
        assert(s@ =~= v@.subrange(from as int, i as int));
    }
    s
}

/// Whether two texts hold the same characters.
pub fn same(a: &str, b: &str) -> (r: bool)
    ensures
        r == (a@ == b@),
{
    let x = chars_of(a);
    let y = chars_of(b);
    if x.len() != y.len() {
        return false;
    }
    let mut i: usize = 0;
    while i < x.len()
        invariant
            x.len() == y.len(),
            x@ == a@,
            y@ == b@,
            i <= x.len(),
            forall|j: int| 0 <= j < i ==> x[j] == y[j],
        decreases x.len() - i,
    {
        if x[i] != y[i] {
            return false;
        }
        i += 1;
    }
    assert(a@ =~= b@);
    true
}

/// Whether a text has no characters.
pub fn is_empty(s: &str) -> (r: bool)
    ensures
        r == (s@.len() == 0),
{
    proof {
        reveal_strlit("");
        if s@.len() == 0 {
            assert(s@ =~= ""@);
        }
    }
    same(s, "")
}

/// An optional text.
pub open spec fn opt_view(s: Option<String>) -> Option<Seq<char>> {
    match s {
        Some(s) => Some(s@),
        None => None,
    }
}

/// An optional text.
pub open spec fn opt_str_view(s: Option<&str>) -> Option<Seq<char>> {
    match s {
        Some(s) => Some(s@),
        None => None,
    }
}

/// A copy of an optional text.
pub fn copy_opt(s: &Option<String>) -> (r: Option<String>)
    ensures
        opt_view(r) == opt_view(*s),
{
    match s {
        Some(s) => Some(s.clone()),
        None => None,
    }
}

/// A copy of an optional text.
pub fn copy_opt_str(s: Option<&str>) -> (r: Option<String>)
    ensures
        opt_view(r) == opt_str_view(s),
{
    match s {
        Some(s) => Some(s.to_string()),
        None => None,
    }
}

/// The text in both halves, one after the other.
pub fn cat2(a: &str, b: &str) -> (s: String)
    ensures
        s@ == a@ + b@,
{
    let mut s = String::new();
    s.append(a);
    s.append(b);
    assert(s@ =~= a@ + b@);
    s
}

/// Three texts, one after the other.
pub fn cat3(a: &str, b: &str, c: &str) -> (s: String)
    ensures
        s@ == a@ + b@ + c@,
{
    let mut s = cat2(a, b);
    s.append(c);
    s
}

/// Four texts, one after the other.
pub fn cat4(a: &str, b: &str, c: &str, d: &str) -> (s: String)
    ensures
        s@ == a@ + b@ + c@ + d@,
{
    let mut s = cat3(a, b, c);
    s.append(d);
    s
}

/// Five texts, one after the other.
pub fn cat5(a: &str, b: &str, c: &str, d: &str, e: &str) -> (s: String)
    ensures
        s@ == a@ + b@ + c@ + d@ + e@,
{
    let mut s = cat4(a, b, c, d);
    s.append(e);
    s
}

/// Six texts, one after the other.
pub fn cat6(a: &str, b: &str, c: &str, d: &str, e: &str, f: &str) -> (s: String)
    ensures
        s@ == a@ + b@ + c@ + d@ + e@ + f@,
{
    let mut s = cat5(a, b, c, d, e);
    s.append(f);
    s
}

/// The texts that a list of strings holds.
pub open spec fn views(v: Seq<String>) -> Seq<Seq<char>> {
    Seq::new(v.len(), |i: int| v[i]@)
}

/// A list of strings with the same texts.
pub fn copy_all(v: &Vec<String>) -> (r: Vec<String>)
    ensures
        views(r@) == views(v@),
{
    let mut r: Vec<String> = Vec::new();
    let mut i: usize = 0;
    while i < v.len()
        invariant
            i <= v.len(),
            views(r@) == views(v@).take(i as int),
        decreases v.len() - i,
    {
        let ghost before = views(r@);
        r.push(v[i].clone());
        assert(views(r@) =~= before.push(v@[i as int]@));
        i += 1;
        assert(views(r@) =~= views(v@).take(i as int));
    }
    assert(views(v@).take(i as int) =~= views(v@));
    r
}

/// The texts of a list of borrowed texts.
pub open spec fn str_views(v: Seq<&str>) -> Seq<Seq<char>> {
    Seq::new(v.len(), |i: int| v[i]@)
}

/// Whether a text stands in a list of texts.
pub fn among(v: &Vec<&str>, s: &str) -> (r: bool)
    ensures
        r == str_views(v@).contains(s@),
{
    let mut i: usize = 0;
    while i < v.len()
        invariant
            i <= v.len(),
            forall|j: int| 0 <= j < i ==> (#[trigger] v@[j])@ != s@,
        decreases v.len() - i,
    {
        if same(v[i], s) {
            assert(str_views(v@)[i as int] == s@);
            return true;
        }
        i += 1;
    }
    assert(!str_views(v@).contains(s@));
    false
}

// ---------------------------------------------------------------------------
// White space
// ---------------------------------------------------------------------------

/// The characters with the Unicode property `White_Space`.
pub open spec fn is_space(c: char) -> bool {
    ||| '\u{9}' <= c <= '\u{d}'
    ||| c == ' '
    ||| c == '\u{85}'
    ||| c == '\u{a0}'
    ||| c == '\u{1680}'
    ||| '\u{2000}' <= c <= '\u{200a}'
    ||| c == '\u{2028}'
    ||| c == '\u{2029}'
    ||| c == '\u{202f}'
    ||| c == '\u{205f}'
    ||| c == '\u{3000}'
}

/// Whether a character is white space.
pub fn space(c: char) -> (r: bool)
    ensures
        r == is_space(c),
{
    ('\u{9}' <= c && c <= '\u{d}') || c == ' ' || c == '\u{85}' || c == '\u{a0}' || c == '\u{1680}'
        || ('\u{2000}' <= c && c <= '\u{200a}') || c == '\u{2028}' || c == '\u{2029}'
        || c == '\u{202f}' || c == '\u{205f}' || c == '\u{3000}'
}

/// A text without the white space it begins with.
pub open spec fn trimmed_start(s: Seq<char>) -> Seq<char>
    decreases s.len(),
{
    if s.len() > 0 && is_space(s[0]) {
        trimmed_start(s.skip(1))
    } else {
        s
    }
}

/// A text without the white space it ends with.
pub open spec fn trimmed_end(s: Seq<char>) -> Seq<char>
    decreases s.len(),
{
    if s.len() > 0 && is_space(s.last()) {
        trimmed_end(s.drop_last())
    } else {
        s
    }
}

/// A text without white space at either end.
pub open spec fn trimmed(s: Seq<char>) -> Seq<char> {
    trimmed_end(trimmed_start(s))
}

/// Where the text without leading white space begins.
fn start_of_text(v: &Vec<char>, from: usize) -> (i: usize)
    requires
        from <= v.len(),
    ensures
        from <= i <= v.len(),
        trimmed_start(v@.skip(from as int)) == v@.skip(i as int),
        i < v.len() ==> !is_space(v[i as int]),
{
    let mut i: usize = from;
    while i < v.len() && space(v[i])
        invariant
            from <= i <= v.len(),
            trimmed_start(v@.skip(from as int)) == trimmed_start(v@.skip(i as int)),
        decreases v.len() - i,
    {
        assert(v@.skip(i as int).skip(1) =~= v@.skip(i + 1));
        i += 1;
    }
    i
}

/// Where the text without trailing white space ends, seen from `from` on.
fn end_of_text(v: &Vec<char>, from: usize) -> (i: usize)
    requires
        from <= v.len(),
    ensures
        from <= i <= v.len(),
        trimmed_end(v@.skip(from as int)) == v@.subrange(from as int, i as int),
{
    let mut i: usize = v.len();
    assert(v@.skip(from as int) =~= v@.subrange(from as int, i as int));
    while i > from && space(v[i - 1])
        invariant
            from <= i <= v.len(),
            trimmed_end(v@.skip(from as int)) == trimmed_end(v@.subrange(from as int, i as int)),
        decreases i,
    {
        assert(v@.subrange(from as int, i as int).drop_last() =~= v@.subrange(from as int, i - 1));
        assert(v@.subrange(from as int, i as int).last() == v@[i - 1]);
        i -= 1;
    }
    assert(i > from ==> v@.subrange(from as int, i as int).last() == v@[i - 1]);
    i
}

/// The text without white space at either end.
pub fn trim(s: &str) -> (r: String)
    ensures
        r@ == trimmed(s@),
{
    let v = chars_of(s);
    let from: usize = start_of_text(&v, 0);
    assert(v@.skip(0) =~= v@);
    let to: usize = end_of_text(&v, from);
    text_of(&v, from, to)
}

/// The text without the white space it begins with.
pub fn trim_start(s: &str) -> (r: String)
    ensures
        r@ == trimmed_start(s@),
{
    let v = chars_of(s);
    let from: usize = start_of_text(&v, 0);
    assert(v@.skip(0) =~= v@);
    assert(v@.skip(from as int) =~= v@.subrange(from as int, v.len() as int));
    text_of(&v, from, v.len())
}

/// How many characters stand before the first white space.
pub open spec fn word_len(s: Seq<char>) -> int
    decreases s.len(),
{
    if s.len() == 0 || is_space(s[0]) {
        0
    } else {
        1 + word_len(s.skip(1))
    }
}

/// The first word of a text ends within it.
pub proof fn word_len_bounds(s: Seq<char>)
    ensures
        0 <= word_len(s) <= s.len(),
        s.len() > 0 && !is_space(s[0]) ==> word_len(s) >= 1,
    decreases s.len(),
{
    if s.len() > 0 && !is_space(s[0]) {
        word_len_bounds(s.skip(1));
    }
}

/// Leading white space is all that `trimmed_start` takes away.
pub proof fn trimmed_start_bounds(s: Seq<char>)
    ensures
        trimmed_start(s).len() <= s.len(),
        trimmed_start(s).len() > 0 ==> !is_space(trimmed_start(s)[0]),
    decreases s.len(),
{
    if s.len() > 0 && is_space(s[0]) {
        trimmed_start_bounds(s.skip(1));
    }
}

/// The words of a text: its longest runs without white space, in order.
pub open spec fn words(s: Seq<char>) -> Seq<Seq<char>>
    decreases s.len(),
{
    let t = trimmed_start(s);
    if t.len() == 0 {
        seq![]
    } else {
        proof {
            trimmed_start_bounds(s);
            word_len_bounds(t);
        }
        seq![t.take(word_len(t))] + words(t.skip(word_len(t)))
    }
}

/// Where the word that begins at `from` ends.
fn end_of_word(v: &Vec<char>, from: usize) -> (i: usize)
    requires
        from <= v.len(),
    ensures
        i == from + word_len(v@.skip(from as int)),
        i <= v.len(),
{
    let mut i: usize = from;
    while i < v.len() && !space(v[i])
        invariant
            from <= i <= v.len(),
            from + word_len(v@.skip(from as int)) == i + word_len(v@.skip(i as int)),
        decreases v.len() - i,
    {
        assert(v@.skip(i as int).skip(1) =~= v@.skip(i + 1));
        i += 1;
    }
    i
}

/// The words of a text.
pub fn split_words(s: &str) -> (r: Vec<String>)
    ensures
        views(r@) == words(s@),
{
    let v = chars_of(s);
    let mut r: Vec<String> = Vec::new();
    let mut i: usize = 0;
    assert(v@.skip(0) =~= v@);
    assert(views(r@) + words(v@) =~= words(v@));
    loop
        invariant
            i <= v.len(),
            v@ == s@,
            views(r@) + words(v@.skip(i as int)) == words(s@),
        ensures
            views(r@) == words(s@),
        decreases v.len() - i,
    {
        let from: usize = start_of_text(&v, i);
        if from == v.len() {
            assert(views(r@) + words(v@.skip(i as int)) =~= views(r@));
            break;
        }
        let to: usize = end_of_word(&v, from);
        proof {
            word_len_bounds(v@.skip(from as int));
            assert(v@.skip(from as int).take(to - from) =~= v@.subrange(from as int, to as int));
            assert(v@.skip(from as int).skip(to - from) =~= v@.skip(to as int));
        }
        let ghost before = views(r@);
        r.push(text_of(&v, from, to));
        assert(views(r@) =~= before + seq![v@.subrange(from as int, to as int)]);
        assert(views(r@) + words(v@.skip(to as int)) =~= before + words(v@.skip(i as int)));
        i = to;
    }
    r
}

// ---------------------------------------------------------------------------
// Lines and pieces
// ---------------------------------------------------------------------------

/// Where a character first stands in a text; the length where it does not.
pub open spec fn index_of(s: Seq<char>, c: char) -> int
    decreases s.len(),
{
    if s.len() == 0 || s[0] == c {
        0
    } else {
        1 + index_of(s.skip(1), c)
    }
}

/// What `index_of` gives is a place in the text or its end.
pub proof fn index_of_bounds(s: Seq<char>, c: char)
    ensures
        0 <= index_of(s, c) <= s.len(),
        index_of(s, c) < s.len() ==> s[index_of(s, c)] == c,
        forall|i: int| 0 <= i < index_of(s, c) ==> s[i] != c,
    decreases s.len(),
{
    if s.len() > 0 && s[0] != c {
        index_of_bounds(s.skip(1), c);
        assert forall|i: int| 0 <= i < index_of(s, c) implies s[i] != c by {
            if i > 0 {
                assert(s.skip(1)[i - 1] == s[i]);
            }
        }
    }
}

/// Where `c` first stands from `from` on.
pub fn find_char(v: &Vec<char>, from: usize, c: char) -> (i: usize)
    requires
        from <= v.len(),
    ensures
        from <= i <= v.len(),
        i == from + index_of(v@.skip(from as int), c),
{
    let mut i: usize = from;
    while i < v.len() && v[i] != c
        invariant
            from <= i <= v.len(),
            from + index_of(v@.skip(from as int), c) == i + index_of(v@.skip(i as int), c),
        decreases v.len() - i,
    {
        assert(v@.skip(i as int).skip(1) =~= v@.skip(i + 1));
        i += 1;
    }
    i
}

/// The pieces of a text between the places of a character.
pub open spec fn pieces(s: Seq<char>, c: char) -> Seq<Seq<char>>
    decreases s.len(),
{
    proof {
        index_of_bounds(s, c);
    }
    let n = index_of(s, c);
    if n >= s.len() {
        seq![s]
    } else {
        seq![s.take(n)] + pieces(s.skip(n + 1), c)
    }
}

/// The pieces of a text between the places of a character.
pub fn split(s: &str, c: char) -> (r: Vec<String>)
    ensures
        views(r@) == pieces(s@, c),
{
    let v = chars_of(s);
    let mut r: Vec<String> = Vec::new();
    let mut i: usize = 0;
    assert(v@.skip(0) =~= v@);
    assert(views(r@) + pieces(v@, c) =~= pieces(v@, c));
    loop
        invariant_except_break
            i <= v.len(),
            v@ == s@,
            views(r@) + pieces(v@.skip(i as int), c) == pieces(s@, c),
        ensures
            views(r@) == pieces(s@, c),
        decreases v.len() - i,
    {
        let to: usize = find_char(&v, i, c);
        let ghost before = views(r@);
        let ghost rest = v@.skip(i as int);
        proof {
            index_of_bounds(rest, c);
            assert(rest.take(to - i) =~= v@.subrange(i as int, to as int));
        }
        r.push(text_of(&v, i, to));
        assert(views(r@) =~= before + seq![v@.subrange(i as int, to as int)]);
        if to == v.len() {
            assert(rest =~= v@.subrange(i as int, to as int));
            break;
        }
        assert(rest.skip(to - i + 1) =~= v@.skip(to + 1));
        assert(views(r@) + pieces(v@.skip(to + 1), c) =~= before + pieces(rest, c));
        i = to + 1;
    }
    r
}

/// A line that a line feed ended, without the carriage return before it.
pub open spec fn without_return(s: Seq<char>) -> Seq<char> {
    if s.len() > 0 && s.last() == '\r' {
        s.drop_last()
    } else {
        s
    }
}

/// The lines of a text. A line ends at a line feed, or at a carriage return
/// with a line feed behind it; the last line may lack its end.
pub open spec fn lines_of(s: Seq<char>) -> Seq<Seq<char>>
    decreases s.len(),
{
    proof {
        index_of_bounds(s, '\n');
    }
    let n = index_of(s, '\n');
    if s.len() == 0 {
        seq![]
    } else if n >= s.len() {
        seq![s]
    } else {
        seq![without_return(s.take(n))] + lines_of(s.skip(n + 1))
    }
}

/// The lines of a text.
pub fn lines(s: &str) -> (r: Vec<String>)
    ensures
        views(r@) == lines_of(s@),
{
    let v = chars_of(s);
    let mut r: Vec<String> = Vec::new();
    let mut i: usize = 0;
    assert(v@.skip(0) =~= v@);
    assert(views(r@) + lines_of(v@) =~= lines_of(v@));
    while i < v.len()
        invariant
            i <= v.len(),
            v@ == s@,
            views(r@) + lines_of(v@.skip(i as int)) == lines_of(s@),
        decreases v.len() - i,
    {
        let n: usize = find_char(&v, i, '\n');
        let ghost before = views(r@);
        let ghost rest = v@.skip(i as int);
        proof {
            index_of_bounds(rest, '\n');
            assert(rest.take(n - i) =~= v@.subrange(i as int, n as int));
        }
        if n == v.len() {
            assert(rest =~= v@.subrange(i as int, n as int));
            r.push(text_of(&v, i, n));
            assert(views(r@) =~= before + seq![rest]);
            assert(lines_of(v@.skip(n as int)) =~= seq![]);
            assert(views(r@) + lines_of(v@.skip(n as int)) =~= before + lines_of(rest));
            i = n;
        } else {
            let to: usize = if n > i && v[n - 1] == '\r' { n - 1 } else { n };
            let ghost line = v@.subrange(i as int, to as int);
            assert(without_return(rest.take(n - i)) =~= line);
            r.push(text_of(&v, i, to));
            assert(views(r@) =~= before + seq![line]);
            assert(rest.skip(n - i + 1) =~= v@.skip(n + 1));
            assert(views(r@) + lines_of(v@.skip(n + 1)) =~= before + lines_of(rest));
            i = n + 1;
        }
    }
    assert(lines_of(v@.skip(i as int)) =~= seq![]);
    assert(views(r@) + seq![] =~= views(r@));
    r
}

/// The texts one after the other, with `sep` between any two.
pub open spec fn joined(parts: Seq<Seq<char>>, sep: Seq<char>) -> Seq<char>
    decreases parts.len(),
{
    if parts.len() == 0 {
        seq![]
    } else if parts.len() == 1 {
        parts[0]
    } else {
        joined(parts.drop_last(), sep) + sep + parts.last()
    }
}

/// The texts one after the other, with `sep` between any two.
pub fn join(parts: &Vec<String>, sep: &str) -> (r: String)
    ensures
        r@ == joined(views(parts@), sep@),
{
    let mut r = String::new();
    let mut i: usize = 0;
    assert(r@ =~= joined(views(parts@).take(0), sep@));
    while i < parts.len()
        invariant
            i <= parts.len(),
            r@ == joined(views(parts@).take(i as int), sep@),
        decreases parts.len() - i,
    {
        if i > 0 {
            r.append(sep);
        }
        r.append(parts[i].as_str());
        proof {
            let next = views(parts@).take(i + 1);
            assert(next.drop_last() =~= views(parts@).take(i as int));
            assert(next.last() == parts@[i as int]@);
            assert(r@ =~= joined(next, sep@));
        }
        i += 1;
    }
    assert(views(parts@).take(i as int) =~= views(parts@));
    r
}

// ---------------------------------------------------------------------------
// Searching
// ---------------------------------------------------------------------------

/// Whether `p` stands in `s` at place `i`.
pub open spec fn occurs_at(s: Seq<char>, p: Seq<char>, i: int) -> bool {
    0 <= i && i + p.len() <= s.len() && s.subrange(i, i + p.len()) == p
}

/// Whether `p` stands somewhere in `s`.
pub open spec fn contains(s: Seq<char>, p: Seq<char>) -> bool {
    exists|i: int| occurs_at(s, p, i)
}

/// Whether a text begins with another.
pub open spec fn begins_with(s: Seq<char>, p: Seq<char>) -> bool {
    occurs_at(s, p, 0)
}

/// Whether `p` stands in `v` at place `i`.
pub fn is_at(v: &Vec<char>, p: &Vec<char>, i: usize) -> (r: bool)
    ensures
        r == occurs_at(v@, p@, i as int),
{
    if i > v.len() || p.len() > v.len() - i {
        return false;
    }
    let mut j: usize = 0;
    while j < p.len()
        invariant
            i <= v.len(),
            i + p.len() <= v.len(),
            j <= p.len(),
            forall|k: int| 0 <= k < j ==> v@[i + k] == p@[k],
        decreases p.len() - j,
    {
        if v[i + j] != p[j] {
            assert(v@.subrange(i as int, i + p@.len())[j as int] != p@[j as int]);
            return false;
        }
        j += 1;
    }
    assert(v@.subrange(i as int, i + p@.len()) =~= p@);
    true
}

/// Where `p` first stands in `v` from `from` on.
pub fn find_from(v: &Vec<char>, p: &Vec<char>, from: usize) -> (r: Option<usize>)
    ensures
        match r {
            Some(i) => from <= i && occurs_at(v@, p@, i as int) && forall|j: int|
                from <= j < i ==> !occurs_at(v@, p@, j),
            None => forall|j: int| from <= j ==> !occurs_at(v@, p@, j),
        },
{
    let mut i: usize = from;
    while i <= v.len()
        invariant
            from <= i,
            forall|j: int| from <= j < i ==> !occurs_at(v@, p@, j),
        decreases v.len() - i + 1,
    {
        if is_at(v, p, i) {
            return Some(i);
        }
        if i == v.len() {
            return None;
        }
        i += 1;
    }
    None
}

/// Whether a text begins with another.
pub fn starts_with(s: &str, p: &str) -> (r: bool)
    ensures
        r == begins_with(s@, p@),
{
    is_at(&chars_of(s), &chars_of(p), 0)
}

/// Whether a text holds another.
pub fn holds(s: &str, p: &str) -> (r: bool)
    ensures
        r == contains(s@, p@),
{
    match find_from(&chars_of(s), &chars_of(p), 0) {
        Some(i) => {
            assert(occurs_at(s@, p@, i as int));
            true
        },
        None => false,
    }
}

/// Whether a text begins with a character.
pub fn starts_with_char(s: &str, c: char) -> (r: bool)
    ensures
        r == (s@.len() > 0 && s@[0] == c),
{
    let v = chars_of(s);
    v.len() > 0 && v[0] == c
}

// ---------------------------------------------------------------------------
// Numbers and columns
// ---------------------------------------------------------------------------

/// The character of a decimal digit.
pub open spec fn digit(d: int) -> char {
    if d == 0 {
        '0'
    } else if d == 1 {
        '1'
    } else if d == 2 {
        '2'
    } else if d == 3 {
        '3'
    } else if d == 4 {
        '4'
    } else if d == 5 {
        '5'
    } else if d == 6 {
        '6'
    } else if d == 7 {
        '7'
    } else if d == 8 {
        '8'
    } else {
        '9'
    }
}

/// A number in decimal.
pub open spec fn decimal(n: nat) -> Seq<char>
    decreases n,
{
    if n < 10 {
        seq![digit(n as int)]
    } else {
        decimal(n / 10).push(digit((n % 10) as int))
    }
}

/// The character of a decimal digit.
fn digit_char(d: u64) -> (c: char)
    requires
        d < 10,
    ensures
        c == digit(d as int),
{
    match d {
        0 => '0',
        1 => '1',
        2 => '2',
        3 => '3',
        4 => '4',
        5 => '5',
        6 => '6',
        7 => '7',
        8 => '8',
        _ => '9',
    }
}

/// A number in decimal.
pub fn number(n: u64) -> (s: String)
    ensures
        s@ == decimal(n as nat),
    decreases n,
{
    let mut s = if n < 10 { String::new() } else { number(n / 10) };
    s.push(digit_char(n % 10));
    assert(s@ =~= decimal(n as nat));
    s
}

/// The number that a decimal digit stands for.
pub open spec fn digit_value(c: char) -> nat {
    (c as int - '0' as int) as nat
}

/// Whether a character is a decimal digit.
pub open spec fn is_digit(c: char) -> bool {
    '0' <= c <= '9'
}

/// The number that a sequence of decimal digits stands for.
pub open spec fn value_of(s: Seq<char>) -> nat
    decreases s.len(),
{
    if s.len() == 0 {
        0
    } else {
        value_of(s.drop_last()) * 10 + digit_value(s.last())
    }
}

/// The digits of a number that may have a plus sign before it.
pub open spec fn unsigned(s: Seq<char>) -> Seq<char> {
    if s.len() > 0 && s[0] == '+' {
        s.skip(1)
    } else {
        s
    }
}

/// The number that a text writes in decimal: digits, at least one, and maybe a
/// plus sign before them. One over the limit is none.
pub open spec fn parsed(s: Seq<char>, max: nat) -> Option<nat> {
    let d = unsigned(s);
    if d.len() > 0 && (forall|i: int| 0 <= i < d.len() ==> is_digit(#[trigger] d[i])) && value_of(d)
        <= max {
        Some(value_of(d))
    } else {
        None
    }
}

/// The first digits of a number stand for no greater one.
proof fn value_of_start(s: Seq<char>, n: int)
    requires
        0 <= n <= s.len(),
    ensures
        value_of(s.take(n)) <= value_of(s),
    decreases s.len(),
{
    if n == s.len() {
        assert(s.take(n) =~= s);
    } else {
        value_of_start(s.drop_last(), n);
        assert(s.drop_last().take(n) =~= s.take(n));
    }
}

/// Reads a number in decimal.
pub fn parse_number(s: &str, max: u64) -> (r: Option<u64>)
    ensures
        match r {
            Some(n) => parsed(s@, max as nat) == Some(n as nat),
            None => parsed(s@, max as nat) is None,
        },
{
    let v = chars_of(s);
    let from: usize = if v.len() > 0 && v[0] == '+' {
        1
    } else {
        0
    };
    let ghost d = unsigned(s@);
    assert(d =~= v@.skip(from as int));
    if from == v.len() {
        return None;
    }
    let mut n: u64 = 0;
    let mut i: usize = from;
    while i < v.len()
        invariant
            from <= i <= v.len(),
            d == v@.skip(from as int),
            d == unsigned(s@),
            forall|j: int| 0 <= j < i - from ==> is_digit(#[trigger] d[j]),
            n == value_of(d.take(i - from)),
            n <= max,
        decreases v.len() - i,
    {
        let c = v[i];
        assert(c == d[i - from]);
        if c < '0' || c > '9' {
            return None;
        }
        proof {
            assert(d.take(i - from + 1).drop_last() =~= d.take(i - from));
            assert(d.take(i - from + 1).last() == c);
            value_of_start(d, i - from + 1);
        }
        let next: u128 = (n as u128) * 10 + (c as u32 - '0' as u32) as u128;
        if next > max as u128 {
            return None;
        }
        n = next as u64;
        i += 1;
    }
    assert(d.take(i - from) =~= d);
    Some(n)
}

/// A number that is written in decimal is read back.
pub proof fn numbers_read_back(n: nat, max: nat)
    requires
        n <= max,
    ensures
        parsed(decimal(n), max) == Some(n),
{
    decimal_digits(n);
}

/// There are no blanks around a number.
pub proof fn numbers_need_no_trimming(n: nat)
    ensures
        trimmed(decimal(n)) == decimal(n),
{
    decimal_digits(n);
    let s = decimal(n);
    assert(is_digit(s[0]));
    assert(is_digit(s.last()));
    assert(trimmed_start(s) == s);
    assert(trimmed_end(s) == s);
}

/// The digits of a number are digits, at least one, and stand for it.
proof fn decimal_digits(n: nat)
    ensures
        decimal(n).len() > 0,
        forall|i: int| 0 <= i < decimal(n).len() ==> is_digit(#[trigger] decimal(n)[i]),
        value_of(decimal(n)) == n,
    decreases n,
{
    if n < 10 {
        assert(decimal(n).drop_last() =~= Seq::<char>::empty());
        assert(value_of(decimal(n).drop_last()) == 0);
    } else {
        decimal_digits(n / 10);
        assert(decimal(n).drop_last() =~= decimal(n / 10));
    }
}

/// `n` times the same character.
pub open spec fn repeated(c: char, n: int) -> Seq<char> {
    Seq::new(n as nat, |i: int| c)
}

/// `n` times the same character.
pub fn repeat_char(c: char, n: usize) -> (s: String)
    ensures
        s@ == repeated(c, n as int),
{
    let mut s = String::new();
    let mut i: usize = 0;
    while i < n
        invariant
            i <= n,
            s@ == repeated(c, i as int),
        decreases n - i,
    {
        s.push(c);
        i += 1;
        assert(s@ =~= repeated(c, i as int));
    }
    s
}

/// A text filled up with blanks on the right to `n` characters.
pub open spec fn padded(s: Seq<char>, n: int) -> Seq<char> {
    if s.len() < n {
        s + repeated(' ', n - s.len())
    } else {
        s
    }
}

/// A text filled up with blanks on the right to `n` characters.
pub fn pad(s: &str, n: usize) -> (r: String)
    ensures
        r@ == padded(s@, n as int),
{
    let len: usize = chars_of(s).len();
    if len < n {
        cat2(s, repeat_char(' ', n - len).as_str())
    } else {
        s.to_owned()
    }
}

/// The first `n` characters of a text, or all of them.
pub open spec fn first_chars(s: Seq<char>, n: int) -> Seq<char> {
    if s.len() <= n {
        s
    } else {
        s.take(n)
    }
}

/// The first `n` characters of a text, or all of them.
pub fn take_chars(s: &str, n: usize) -> (r: String)
    ensures
        r@ == first_chars(s@, n as int),
{
    let v = chars_of(s);
    let to: usize = if v.len() <= n { v.len() } else { n };
    assert(v@.subrange(0, to as int) =~= first_chars(s@, n as int));
    text_of(&v, 0, to)
}

// ---------------------------------------------------------------------------
// Letter case
// ---------------------------------------------------------------------------

/// Whether every character is an ASCII character.
pub open spec fn is_plain(s: Seq<char>) -> bool {
    forall|i: int| 0 <= i < s.len() ==> (#[trigger] s[i] as u32) < 128
}

/// An ASCII letter in lower case; any other character as it is.
pub open spec fn lower_char(c: char) -> char {
    if 'A' <= c <= 'Z' {
        ((c as u32) + 32) as char
    } else {
        c
    }
}

/// Whether two texts are the same but for the case of ASCII letters.
pub open spec fn same_but_case(a: Seq<char>, b: Seq<char>) -> bool {
    a.len() == b.len() && forall|i: int|
        0 <= i < a.len() ==> lower_char(#[trigger] a[i]) == lower_char(b[i])
}

/// An ASCII letter in lower case; any other character as it is.
fn lower(c: char) -> (r: char)
    ensures
        r == lower_char(c),
{
    if 'A' <= c && c <= 'Z' {
        (c as u8 + 32) as char
    } else {
        c
    }
}

/// Whether two texts are the same but for the case of ASCII letters.
pub fn same_ignoring_case(a: &str, b: &str) -> (r: bool)
    ensures
        r == same_but_case(a@, b@),
{
    let x = chars_of(a);
    let y = chars_of(b);
    if x.len() != y.len() {
        return false;
    }
    let mut i: usize = 0;
    while i < x.len()
        invariant
            x.len() == y.len(),
            x@ == a@,
            y@ == b@,
            i <= x.len(),
            forall|j: int| 0 <= j < i ==> lower_char(#[trigger] a@[j]) == lower_char(b@[j]),
        decreases x.len() - i,
    {
        if lower(x[i]) != lower(y[i]) {
            assert(lower_char(a@[i as int]) != lower_char(b@[i as int]));
            return false;
        }
        i += 1;
    }
    true
}

/// The lower case of a text, as the Unicode tables of std give it.
pub uninterp spec fn lowercase(s: Seq<char>) -> Seq<char>;

/// `str::to_lowercase` of std: a function of the text alone, which on ASCII
/// text turns the letters `A` to `Z` into `a` to `z` and leaves the rest.
#[verifier::external_body]
pub(crate) fn to_lower(s: &str) -> (r: String)
    ensures
        r@ == lowercase(s@),
        is_plain(s@) ==> r@ == s@.map_values(|c: char| lower_char(c)),
{
    s.to_lowercase()
}

// ---------------------------------------------------------------------------
// Bytes
// ---------------------------------------------------------------------------

/// How many bytes a text takes in UTF-8.
pub open spec fn byte_len(s: Seq<char>) -> usize {
    vstd::utf8::encode_utf8(s).len() as usize
}

/// How many bytes a text takes in UTF-8.
pub fn len_in_bytes(s: &str) -> (r: usize)
    ensures
        r == byte_len(s@),
{
    s.len()
}

/// Whether a text can be cut after a number of bytes: it is no longer than
/// that, or a character ends there.
pub open spec fn cuts_at(s: Seq<char>, n: int) -> bool {
    vstd::utf8::encode_utf8(s).len() as usize <= n || vstd::utf8::is_char_boundary(
        vstd::utf8::encode_utf8(s),
        n,
    )
}

/// The text in the first bytes of a text.
pub open spec fn first_bytes(s: Seq<char>, n: int) -> Seq<char> {
    vstd::utf8::decode_utf8(vstd::utf8::encode_utf8(s).subrange(0, n))
}

/// The text in the first bytes of a text takes just those bytes, and the text
/// begins with it.
pub proof fn first_bytes_are_kept(s: Seq<char>, n: int)
    requires
        0 <= n <= vstd::utf8::encode_utf8(s).len(),
        vstd::utf8::is_char_boundary(vstd::utf8::encode_utf8(s), n),
    ensures
        vstd::utf8::encode_utf8(first_bytes(s, n)) == vstd::utf8::encode_utf8(s).subrange(0, n),
        first_bytes(s, n).is_prefix_of(s),
{
    let bytes = vstd::utf8::encode_utf8(s);
    vstd::utf8::encode_utf8_valid_utf8(s);
    vstd::utf8::encode_utf8_decode_utf8(s);
    vstd::utf8::valid_utf8_split(bytes, n);
    vstd::utf8::decode_utf8_split(bytes, n);
    vstd::utf8::decode_utf8_encode_utf8(bytes.subrange(0, n));
    let head = first_bytes(s, n);
    assert(s.subrange(0, head.len() as int) =~= head);
}

/// The text in the first bytes of a text.
pub fn take_bytes(s: &str, n: usize) -> (r: String)
    requires
        vstd::utf8::is_char_boundary(vstd::utf8::encode_utf8(s@), n as int),
    ensures
        r@ == first_bytes(s@, n as int),
{
    let (head, _tail) = s.split_at(n);
    proof {
        vstd::utf8::encode_utf8_decode_utf8(head@);
    }
    head.to_owned()
}

/// Whether a text can be cut after a number of bytes.
pub fn can_cut(s: &str, n: usize) -> (r: bool)
    ensures
        r == cuts_at(s@, n as int),
{
    s.len() <= n || s.is_char_boundary(n)
}

// ---------------------------------------------------------------------------
// Replacing
// ---------------------------------------------------------------------------

/// Where a text first stands in another; a place where it does not fit, where
/// it stands nowhere.
pub open spec fn first_at(s: Seq<char>, p: Seq<char>) -> int
    decreases s.len(),
{
    if begins_with(s, p) {
        0
    } else if s.len() == 0 {
        1
    } else {
        1 + first_at(s.skip(1), p)
    }
}

/// A text stands where it is first found, and nowhere before; where it is not
/// found, it does not fit.
pub proof fn first_at_bounds(s: Seq<char>, p: Seq<char>)
    ensures
        0 <= first_at(s, p) <= s.len() + 1,
        first_at(s, p) + p.len() <= s.len() ==> occurs_at(s, p, first_at(s, p)),
        forall|i: int| 0 <= i < first_at(s, p) ==> !occurs_at(s, p, i),
        first_at(s, p) + p.len() > s.len() ==> !contains(s, p),
    decreases s.len(),
{
    if !begins_with(s, p) && s.len() > 0 {
        let rest = s.skip(1);
        first_at_bounds(rest, p);
        let k = first_at(s, p);
        if k + p.len() <= s.len() {
            assert(rest.subrange(k - 1, k - 1 + p.len()) =~= s.subrange(k, k + p.len()));
        }
        assert forall|i: int| 0 <= i < k implies !occurs_at(s, p, i) by {
            if i > 0 && occurs_at(s, p, i) {
                assert(rest.subrange(i - 1, i - 1 + p.len()) =~= s.subrange(i, i + p.len()));
                assert(occurs_at(rest, p, i - 1));
            }
        }
        if k + p.len() > s.len() {
            assert forall|i: int| !occurs_at(s, p, i) by {
                if i > 0 && occurs_at(s, p, i) {
                    assert(rest.subrange(i - 1, i - 1 + p.len()) =~= s.subrange(i, i + p.len()));
                    assert(occurs_at(rest, p, i - 1));
                    assert(contains(rest, p));
                }
            }
        }
    }
}

/// How often a text stands in another, counted from the left and without
/// overlaps.
pub open spec fn occurrences(s: Seq<char>, p: Seq<char>) -> nat
    decreases s.len(),
{
    let k = first_at(s, p);
    if p.len() == 0 || k + p.len() > s.len() {
        0
    } else {
        proof {
            first_at_bounds(s, p);
        }
        1 + occurrences(s.skip(k + p.len()), p)
    }
}

/// A text with another replaced in it, from the left, no more than `n` times.
pub open spec fn replaced(s: Seq<char>, p: Seq<char>, t: Seq<char>, n: nat) -> Seq<char>
    decreases n,
{
    let k = first_at(s, p);
    if n == 0 || p.len() == 0 || k + p.len() > s.len() {
        s
    } else {
        s.take(k) + t + replaced(s.skip(k + p.len()), p, t, (n - 1) as nat)
    }
}

/// Where a text first stands in another, from `from` on.
fn find_first(v: &Vec<char>, p: &Vec<char>, from: usize) -> (r: Option<usize>)
    requires
        from <= v.len(),
    ensures
        match r {
            Some(i) => i == from + first_at(v@.skip(from as int), p@) && i + p.len() <= v.len(),
            None => from + first_at(v@.skip(from as int), p@) + p.len() > v.len(),
        },
{
    let ghost rest = v@.skip(from as int);
    proof {
        first_at_bounds(rest, p@);
    }
    let r = find_from(v, p, from);
    proof {
        let k = first_at(rest, p@);
        match r {
            Some(i) => {
                assert(rest.subrange(i - from, i - from + p@.len()) =~= v@.subrange(
                    i as int,
                    i + p@.len(),
                ));
                assert(occurs_at(rest, p@, i - from));
                assert(contains(rest, p@));
                if k < i - from {
                    assert(v@.subrange(from + k, from + k + p@.len()) =~= rest.subrange(
                        k,
                        k + p@.len(),
                    ));
                    assert(occurs_at(v@, p@, from + k));
                }
            },
            None => {
                if k + p@.len() <= rest.len() {
                    assert(v@.subrange(from + k, from + k + p@.len()) =~= rest.subrange(
                        k,
                        k + p@.len(),
                    ));
                    assert(occurs_at(v@, p@, from + k));
                }
            },
        }
    }
    r
}

/// How often a text stands in another.
pub fn count_matches(s: &str, p: &str) -> (r: usize)
    ensures
        r == occurrences(s@, p@),
{
    let v = chars_of(s);
    let w = chars_of(p);
    if w.len() == 0 {
        return 0;
    }
    let mut n: usize = 0;
    let mut i: usize = 0;
    assert(v@.skip(0) =~= v@);
    loop
        invariant_except_break
            i <= v.len(),
            n <= i,
            w.len() > 0,
            v@ == s@,
            w@ == p@,
            occurrences(s@, p@) == n + occurrences(v@.skip(i as int), p@),
        ensures
            n == occurrences(s@, p@),
        decreases v.len() - i,
    {
        match find_first(&v, &w, i) {
            Some(k) => {
                proof {
                    first_at_bounds(v@.skip(i as int), p@);
                }
                assert(v@.skip(i as int).skip(k - i + w.len()) =~= v@.skip(k + w.len()));
                i = k + w.len();
                n += 1;
            },
            None => {
                break;
            },
        }
    }
    n
}

/// Replaces a text in another, from the left, no more than `limit` times.
pub fn replace(s: &str, p: &str, t: &str, limit: usize) -> (r: String)
    ensures
        r@ == replaced(s@, p@, t@, limit as nat),
{
    let v = chars_of(s);
    let w = chars_of(p);
    if w.len() == 0 {
        return s.to_owned();
    }
    let mut out = String::new();
    let mut left: usize = limit;
    let mut i: usize = 0;
    assert(v@.skip(0) =~= v@);
    assert(out@ + replaced(v@, p@, t@, left as nat) =~= replaced(v@, p@, t@, left as nat));
    while left > 0
        invariant_except_break
            i <= v.len(),
            w.len() > 0,
            v@ == s@,
            w@ == p@,
            out@ + replaced(v@.skip(i as int), p@, t@, left as nat) == replaced(
                s@,
                p@,
                t@,
                limit as nat,
            ),
        ensures
            i <= v.len(),
            v@ == s@,
            out@ + v@.skip(i as int) == replaced(s@, p@, t@, limit as nat),
        decreases left,
    {
        let ghost here = v@.skip(i as int);
        match find_first(&v, &w, i) {
            Some(k) => {
                let ghost was = out@;
                proof {
                    first_at_bounds(here, p@);
                }
                out.append(text_of(&v, i, k).as_str());
                out.append(t);
                assert(here.take(k - i) =~= v@.subrange(i as int, k as int));
                assert(here.skip(k - i + w.len()) =~= v@.skip(k + w.len()));
                i = k + w.len();
                left -= 1;
                assert(out@ + replaced(v@.skip(i as int), p@, t@, left as nat) =~= was + replaced(
                    here,
                    p@,
                    t@,
                    (left + 1) as nat,
                ));
            },
            None => {
                break;
            },
        }
    }
    assert(v@.subrange(i as int, v.len() as int) =~= v@.skip(i as int));
    out.append(text_of(&v, i, v.len()).as_str());
    out
}

/// Where a text does not stand, replacing it changes nothing.
pub proof fn replacing_nothing(s: Seq<char>, p: Seq<char>, t: Seq<char>, n: nat)
    requires
        occurrences(s, p) == 0,
    ensures
        replaced(s, p, t, n) == s,
{
}

/// A limit that is no smaller than the number of places is no limit at all.
pub proof fn replacing_all(s: Seq<char>, p: Seq<char>, t: Seq<char>, n: nat)
    requires
        n >= occurrences(s, p),
    ensures
        replaced(s, p, t, n) == replaced(s, p, t, occurrences(s, p)),
    decreases s.len(),
{
    let k = first_at(s, p);
    if p.len() > 0 && k + p.len() <= s.len() {
        first_at_bounds(s, p);
        replacing_all(s.skip(k + p.len()), p, t, (n - 1) as nat);
    }
}

// ---------------------------------------------------------------------------
// More numbers
// ---------------------------------------------------------------------------

/// A number in decimal, with a minus sign where it is below zero.
pub open spec fn signed_decimal(n: int) -> Seq<char> {
    if n < 0 {
        seq!['-'] + decimal((-n) as nat)
    } else {
        decimal(n as nat)
    }
}

/// A number in decimal, with a minus sign where it is below zero.
pub fn signed_number(n: i32) -> (s: String)
    ensures
        s@ == signed_decimal(n as int),
{
    if n < 0 {
        let m: u64 = (-(n as i64)) as u64;
        let mut s = String::new();
        s.push('-');
        s.append(number(m).as_str());
        assert(s@ =~= signed_decimal(n as int));
        s
    } else {
        number(n as u64)
    }
}

/// A text filled up with blanks on the left to `n` characters.
pub open spec fn right_aligned(s: Seq<char>, n: int) -> Seq<char> {
    if s.len() < n {
        repeated(' ', n - s.len()) + s
    } else {
        s
    }
}

/// A text filled up with blanks on the left to `n` characters.
pub fn pad_left(s: &str, n: usize) -> (r: String)
    ensures
        r@ == right_aligned(s@, n as int),
{
    let len: usize = chars_of(s).len();
    if len < n {
        cat2(repeat_char(' ', n - len).as_str(), s)
    } else {
        s.to_owned()
    }
}

// ---------------------------------------------------------------------------
// Laws
// ---------------------------------------------------------------------------

/// What is taken away at the front of a text is white space, and all of it.
pub proof fn only_leading_space_goes(s: Seq<char>) -> (i: int)
    ensures
        0 <= i <= s.len(),
        trimmed_start(s) == s.skip(i),
        forall|k: int| 0 <= k < i ==> is_space(#[trigger] s[k]),
        i < s.len() ==> !is_space(s[i]),
    decreases s.len(),
{
    if s.len() > 0 && is_space(s[0]) {
        let j = only_leading_space_goes(s.skip(1));
        assert(s.skip(1).skip(j) =~= s.skip(j + 1));
        assert forall|k: int| 0 <= k < j + 1 implies is_space(#[trigger] s[k]) by {
            if k > 0 {
                assert(s.skip(1)[k - 1] == s[k]);
            }
        }
        if j + 1 < s.len() {
            assert(s.skip(1)[j] == s[j + 1]);
        }
        j + 1
    } else {
        assert(s.skip(0) =~= s);
        0
    }
}

/// What is taken away at the end of a text is white space, and all of it.
pub proof fn only_trailing_space_goes(s: Seq<char>) -> (j: int)
    ensures
        0 <= j <= s.len(),
        trimmed_end(s) == s.take(j),
        forall|k: int| j <= k < s.len() ==> is_space(#[trigger] s[k]),
        j > 0 ==> !is_space(s[j - 1]),
    decreases s.len(),
{
    if s.len() > 0 && is_space(s.last()) {
        let j = only_trailing_space_goes(s.drop_last());
        assert(s.drop_last().take(j) =~= s.take(j));
        assert forall|k: int| j <= k < s.len() implies is_space(#[trigger] s[k]) by {
            if k < s.len() - 1 {
                assert(s.drop_last()[k] == s[k]);
            }
        }
        if j > 0 {
            assert(s.drop_last()[j - 1] == s[j - 1]);
        }
        j
    } else {
        assert(s.take(s.len() as int) =~= s);
        s.len() as int
    }
}

/// Trimming a text takes the white space round it away, and nothing else: what is left is a
/// part of the text with white space round it and none at its ends.
pub proof fn only_space_is_trimmed(s: Seq<char>) -> (ends: (int, int))
    ensures
        0 <= ends.0 <= ends.1 <= s.len(),
        trimmed(s) == s.subrange(ends.0, ends.1),
        forall|k: int| 0 <= k < ends.0 ==> is_space(#[trigger] s[k]),
        forall|k: int| ends.1 <= k < s.len() ==> is_space(#[trigger] s[k]),
        trimmed(s).len() > 0 ==> !is_space(trimmed(s)[0]) && !is_space(trimmed(s).last()),
{
    let i = only_leading_space_goes(s);
    let t = s.skip(i);
    let j = only_trailing_space_goes(t);
    assert(t.take(j) =~= s.subrange(i, i + j));
    assert forall|k: int| i + j <= k < s.len() implies is_space(#[trigger] s[k]) by {
        assert(t[k - i] == s[k]);
    }
    if j > 0 {
        assert(t[j - 1] == t.take(j).last());
    }
    (i, i + j)
}

/// Joining a text and some texts puts the text first.
proof fn joining_goes_on(a: Seq<char>, rest: Seq<Seq<char>>, sep: Seq<char>)
    requires
        rest.len() > 0,
    ensures
        joined(seq![a] + rest, sep) == a + sep + joined(rest, sep),
    decreases rest.len(),
{
    let all = seq![a] + rest;
    assert(all.last() == rest.last());
    if rest.len() == 1 {
        assert(all.drop_last() =~= seq![a]);
        assert(joined(all.drop_last(), sep) == a);
        assert(joined(rest, sep) == rest[0]);
    } else {
        joining_goes_on(a, rest.drop_last(), sep);
        assert(all.drop_last() =~= seq![a] + rest.drop_last());
        assert(a + sep + joined(rest.drop_last(), sep) + sep + rest.last() =~= a + sep + (joined(
            rest.drop_last(),
            sep,
        ) + sep + rest.last()));
    }
}

/// The pieces of a text put together again are the text, and none of them holds the
/// character between them.
pub proof fn pieces_join_back(s: Seq<char>, c: char)
    ensures
        pieces(s, c).len() > 0,
        joined(pieces(s, c), seq![c]) == s,
        forall|i: int, k: int|
            0 <= i < pieces(s, c).len() && 0 <= k < pieces(s, c)[i].len() ==> #[trigger] pieces(
                s,
                c,
            )[i][k] != c,
    decreases s.len(),
{
    index_of_bounds(s, c);
    let n = index_of(s, c);
    if n < s.len() {
        let rest = s.skip(n + 1);
        pieces_join_back(rest, c);
        joining_goes_on(s.take(n), pieces(rest, c), seq![c]);
        assert(s =~= s.take(n) + seq![c] + rest);
        assert forall|i: int, k: int|
            0 <= i < pieces(s, c).len() && 0 <= k < pieces(s, c)[i].len() implies #[trigger] pieces(
            s,
            c,
        )[i][k] != c by {
            if i > 0 {
                assert(pieces(s, c)[i] == pieces(rest, c)[i - 1]);
            }
        }
    }
}

/// Each piece of a text holds only characters of the text.
pub proof fn pieces_are_parts(s: Seq<char>, c: char, i: int, k: int)
    requires
        0 <= i < pieces(s, c).len(),
        0 <= k < pieces(s, c)[i].len(),
    ensures
        s.contains(pieces(s, c)[i][k]),
    decreases s.len(),
{
    index_of_bounds(s, c);
    let n = index_of(s, c);
    if n < s.len() {
        let rest = s.skip(n + 1);
        if i > 0 {
            assert(pieces(s, c)[i] == pieces(rest, c)[i - 1]);
            pieces_are_parts(rest, c, i - 1, k);
            let j = choose|j: int| 0 <= j < rest.len() && rest[j] == pieces(rest, c)[i - 1][k];
            assert(s[n + 1 + j] == rest[j]);
        } else {
            assert(pieces(s, c)[0] == s.take(n));
            assert(s[k] == s.take(n)[k]);
        }
    } else {
        assert(pieces(s, c)[0] == s);
        assert(s[k] == pieces(s, c)[i][k]);
    }
}

/// The lines of a text put together again are the text, but for a line feed at its end,
/// where no line ends with a return.
pub proof fn lines_join_back(s: Seq<char>)
    requires
        !s.contains('\r'),
    ensures
        s.len() > 0 ==> lines_of(s).len() > 0,
        joined(lines_of(s), seq!['\n']) == s || joined(lines_of(s), seq!['\n']) + seq!['\n'] == s,
    decreases s.len(),
{
    index_of_bounds(s, '\n');
    let n = index_of(s, '\n');
    if s.len() > 0 && n < s.len() {
        let rest = s.skip(n + 1);
        let head = s.take(n);
        assert(without_return(head) == head) by {
            if head.len() > 0 {
                assert(head.last() == s[n - 1]);
                assert(s.contains(s[n - 1]));
            }
        }
        assert(!rest.contains('\r')) by {
            if rest.contains('\r') {
                let j = choose|j: int| 0 <= j < rest.len() && rest[j] == '\r';
                assert(s[n + 1 + j] == '\r');
            }
        }
        lines_join_back(rest);
        assert(s =~= head + seq!['\n'] + rest);
        if rest.len() == 0 {
            assert(lines_of(s) =~= seq![head]);
            assert(joined(lines_of(s), seq!['\n']) == head);
            assert(head + seq!['\n'] =~= s);
        } else {
            joining_goes_on(head, lines_of(rest), seq!['\n']);
            let body = joined(lines_of(rest), seq!['\n']);
            assert(head + seq!['\n'] + body + seq!['\n'] =~= head + seq!['\n'] + (body
                + seq!['\n']));
        }
    }
}

/// Whether a text is one word.
pub open spec fn is_word(s: Seq<char>) -> bool {
    s.len() > 0 && forall|i: int| 0 <= i < s.len() ==> !is_space(#[trigger] s[i])
}

/// The first word of a text ends where white space begins.
proof fn a_word_ends_at_space(a: Seq<char>, rest: Seq<char>)
    requires
        forall|i: int| 0 <= i < a.len() ==> !is_space(#[trigger] a[i]),
        rest.len() > 0 ==> is_space(rest[0]),
    ensures
        word_len(a + rest) == a.len(),
    decreases a.len(),
{
    let s = a + rest;
    if a.len() == 0 {
        assert(s =~= rest);
    } else {
        assert(s[0] == a[0]);
        assert(s.skip(1) =~= a.skip(1) + rest);
        assert forall|i: int| 0 <= i < a.skip(1).len() implies !is_space(
            #[trigger] a.skip(1)[i],
        ) by {
            assert(a.skip(1)[i] == a[i + 1]);
        }
        a_word_ends_at_space(a.skip(1), rest);
    }
}

/// One word is the word of its text, and two words with a blank between them are the two
/// words of theirs.
pub proof fn words_are_found(a: Seq<char>, b: Seq<char>)
    requires
        is_word(a),
        is_word(b),
    ensures
        words(a) == seq![a],
        words(a + " "@ + b) == seq![a, b],
        trimmed(a).len() > 0,
        trimmed(a + " "@ + b).len() > 0,
{
    reveal_strlit(" ");
    one_word_is_found(a);
    one_word_is_found(b);
    let s = a + " "@ + b;
    let rest = " "@ + b;
    assert(s =~= a + rest);
    assert(trimmed_start(s) == s) by {
        assert(s[0] == a[0]);
    }
    a_word_ends_at_space(a, rest);
    assert(s.take(a.len() as int) =~= a);
    assert(s.skip(a.len() as int) =~= rest);
    assert(rest.skip(1) =~= b);
    assert(trimmed_start(b) == b);
    assert(trimmed_start(rest) == b);
    assert(words(rest) == words(b));
    assert(words(s) =~= seq![a, b]);
    assert(s.last() == b.last());
    assert(trimmed_end(s) == s);
}

/// One word is the word of its text.
proof fn one_word_is_found(a: Seq<char>)
    requires
        is_word(a),
    ensures
        words(a) == seq![a],
        trimmed(a) == a,
{
    assert(trimmed_start(a) == a);
    assert(trimmed_end(a) == a);
    a_word_ends_at_space(a, Seq::empty());
    assert(a + Seq::<char>::empty() =~= a);
    assert(a.take(a.len() as int) =~= a);
    assert(a.skip(a.len() as int) =~= Seq::<char>::empty());
    assert(words(Seq::<char>::empty()) =~= Seq::<Seq<char>>::empty());
    assert(words(a) =~= seq![a]);
}

/// Where a character stands first is behind what does not hold it.
pub proof fn the_first_place_is_found(a: Seq<char>, c: char, rest: Seq<char>)
    requires
        forall|i: int| 0 <= i < a.len() ==> #[trigger] a[i] != c,
    ensures
        index_of(a, c) == a.len(),
        index_of(a + seq![c] + rest, c) == a.len(),
    decreases a.len(),
{
    let s = a + seq![c] + rest;
    if a.len() == 0 {
        assert(s[0] == c);
    } else {
        assert(s[0] == a[0]);
        assert(s.skip(1) =~= a.skip(1) + seq![c] + rest);
        assert forall|i: int| 0 <= i < a.skip(1).len() implies #[trigger] a.skip(1)[i] != c by {
            assert(a.skip(1)[i] == a[i + 1]);
        }
        the_first_place_is_found(a.skip(1), c, rest);
    }
}

/// A piece more stands behind the last place of the character that parts them.
pub proof fn the_last_piece_is_found(s: Seq<char>, c: char, a: Seq<char>)
    requires
        forall|i: int| 0 <= i < a.len() ==> #[trigger] a[i] != c,
    ensures
        pieces(a, c) == seq![a],
        pieces(s + seq![c] + a, c) == pieces(s, c).push(a),
    decreases s.len(),
{
    the_first_place_is_found(a, c, Seq::empty());
    index_of_bounds(s, c);
    let n = index_of(s, c);
    let whole = s + seq![c] + a;
    if n >= s.len() {
        the_first_place_is_found(s, c, a);
        assert(index_of(whole, c) == n);
        assert(whole.take(n) =~= s);
        assert(whole.skip(n + 1) =~= a);
        assert(pieces(a, c) =~= seq![a]);
        assert(pieces(whole, c) == seq![whole.take(n)] + pieces(whole.skip(n + 1), c));
        assert(pieces(whole, c) =~= seq![s] + seq![a]);
        assert(seq![s] + seq![a] =~= seq![s].push(a));
    } else {
        let b = s.take(n);
        let rest = s.skip(n + 1);
        assert forall|i: int| 0 <= i < b.len() implies #[trigger] b[i] != c by {
            assert(b[i] == s[i]);
        }
        assert(whole =~= b + seq![c] + (rest + seq![c] + a));
        the_first_place_is_found(b, c, rest + seq![c] + a);
        assert(whole.take(n) =~= b);
        assert(whole.skip(n + 1) =~= rest + seq![c] + a);
        the_last_piece_is_found(rest, c, a);
        assert(pieces(whole, c) =~= seq![b] + pieces(rest, c).push(a));
        assert(pieces(whole, c) =~= pieces(s, c).push(a));
    }
}

/// A text that neither begins nor ends with white space is not trimmed.
pub proof fn bare_text_is_kept(s: Seq<char>)
    requires
        s.len() > 0,
        !is_space(s[0]),
        !is_space(s.last()),
    ensures
        trimmed(s) == s,
        trimmed_start(s) == s,
        trimmed(seq![' '] + s) == s,
{
    let t = seq![' '] + s;
    assert(t[0] == ' ');
    assert(t.skip(1) =~= s);
    assert(trimmed_start(t) == trimmed_start(s));
}

/// A text is filled up to its room with blanks, before it or behind it, and one that is
/// longer is left as it is.
pub proof fn texts_are_filled_up(s: Seq<char>, n: int)
    ensures
        s.len() >= n ==> padded(s, n) == s && right_aligned(s, n) == s,
        s.len() < n ==> {
            &&& padded(s, n).len() == n && right_aligned(s, n).len() == n
            &&& padded(s, n).take(s.len() as int) == s
            &&& right_aligned(s, n).skip(n - s.len()) == s
            &&& forall|i: int| s.len() <= i < n ==> #[trigger] padded(s, n)[i] == ' '
            &&& forall|i: int| 0 <= i < n - s.len() ==> #[trigger] right_aligned(s, n)[i] == ' '
        },
{
    if s.len() < n {
        assert(padded(s, n).take(s.len() as int) =~= s);
        assert(right_aligned(s, n).skip(n - s.len()) =~= s);
    }
}

/// A text is found first where it stands and does not stand before.
pub proof fn the_first_text_is_found(s: Seq<char>, p: Seq<char>, k: int)
    requires
        p.len() > 0,
        occurs_at(s, p, k),
        forall|i: int| 0 <= i < k ==> !occurs_at(s, p, i),
    ensures
        first_at(s, p) == k,
        occurrences(s, p) == 1 + occurrences(s.skip(k + p.len()), p),
    decreases s.len(),
{
    if k > 0 {
        let rest = s.skip(1);
        assert(!occurs_at(s, p, 0));
        assert(rest.subrange(k - 1, k - 1 + p.len()) =~= s.subrange(k, k + p.len()));
        assert forall|i: int| 0 <= i < k - 1 implies !occurs_at(rest, p, i) by {
            if occurs_at(rest, p, i) {
                assert(s.subrange(i + 1, i + 1 + p.len()) =~= rest.subrange(i, i + p.len()));
                assert(occurs_at(s, p, i + 1));
            }
        }
        the_first_text_is_found(rest, p, k - 1);
    }
}

/// Numbers are written in decimal: a digit for each power of ten, the last one last.
pub proof fn numbers_are_written_in_decimal(n: nat, d: nat)
    requires
        d < 10,
    ensures
        decimal(d) == seq![digit(d as int)],
        n > 0 ==> decimal(n * 10 + d) == decimal(n).push(digit(d as int)),
        digit(d as int) as int == '0' as int + d,
        value_of(decimal(n).push(digit(d as int))) == value_of(decimal(n)) * 10 + d,
{
    if n > 0 {
        assert((n * 10 + d) / 10 == n);
        assert((n * 10 + d) % 10 == d);
    }
    assert(decimal(n).push(digit(d as int)).drop_last() =~= decimal(n));
}

/// Texts with other characters than digits, behind at most one plus sign, are no numbers.
pub proof fn other_texts_are_no_numbers(s: Seq<char>, max: nat, i: int)
    requires
        0 < i < s.len(),
        !('0' <= s[i] <= '9'),
    ensures
        parsed(s, max) is None,
        parsed(Seq::empty(), max) is None,
{
    if s[0] == '+' {
        assert(s.skip(1)[i - 1] == s[i]);
    }
}

/// The first characters of a text are its beginning, all of it where it is short.
pub proof fn the_first_characters_are_taken(s: Seq<char>, n: int)
    requires
        n >= 0,
    ensures
        s.len() <= n ==> first_chars(s, n) == s,
        s.len() > n ==> first_chars(s, n) == s.take(n),
{
}

/// Texts are joined in order, with the separator between them.
pub proof fn texts_are_joined(parts: Seq<Seq<char>>, last: Seq<char>, sep: Seq<char>)
    ensures
        joined(Seq::empty(), sep).len() == 0,
        joined(seq![last], sep) == last,
        parts.len() > 0 ==> joined(parts.push(last), sep) == joined(parts, sep) + sep + last,
{
    assert(parts.push(last).drop_last() =~= parts);
}

} // verus!
