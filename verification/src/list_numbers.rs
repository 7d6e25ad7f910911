//! The numbers of markdown lists: which lines are numbered items, and how far
//! their lists count.

use vstd::prelude::*;

use crate::text;

verus! {

/// Whether a line begins as a numbered item: with at most three blanks up to `a`,
/// digits from there up to `b`, a dot or a bracket, and then a blank or the end.
pub open spec fn numbered_at(line: Seq<char>, a: int, b: int) -> bool {
    &&& 0 <= a < b < line.len()
    &&& a <= 3
    &&& forall|j: int| 0 <= j < a ==> #[trigger] line[j] == ' '
    &&& forall|j: int| a <= j < b ==> text::is_digit(#[trigger] line[j])
    &&& line[b] == '.' || line[b] == ')'
    &&& b + 1 == line.len() || line[b + 1] == ' '
}

/// The number that digits are read as: one over the range of `u32` is read as one.
pub open spec fn number_read(digits: Seq<char>) -> int {
    if text::value_of(digits) <= u32::MAX {
        text::value_of(digits) as int
    } else {
        1
    }
}

/// The level and the number of the numbered item that a line is.
pub open spec fn item_of(line: Seq<char>) -> Option<(int, int)> {
    if exists|a: int, b: int| numbered_at(line, a, b) {
        let (a, b) = choose|a: int, b: int| numbered_at(line, a, b);
        Some((a, number_read(line.subrange(a, b))))
    } else {
        None
    }
}

/// Whether a line begins or ends a block of code.
pub open spec fn is_fence(line: Seq<char>) -> bool {
    text::begins_with(line, "```"@)
}

/// The lines that are shown, each with the item that it is, and whether the last of
/// them stands in a block of code. The lines that begin and end such a block are
/// not shown, and within one there are no items.
pub open spec fn items_in(lines: Seq<Seq<char>>) -> (Seq<Option<(int, int)>>, bool)
    decreases lines.len(),
{
    if lines.len() == 0 {
        (seq![], false)
    } else {
        let (items, in_code) = items_in(lines.drop_last());
        if is_fence(lines.last()) {
            (items, !in_code)
        } else if in_code {
            (items.push(None), in_code)
        } else {
            (items.push(item_of(lines.last())), in_code)
        }
    }
}

/// The lists that are under way, by their level: the number that each begins with,
/// and how many items it has. A line that is no item ends them all, and a new list
/// ends those of deeper levels.
pub open spec fn lists_after(items: Seq<Option<(int, int)>>) -> Seq<Option<(int, int)>>
    decreases items.len(),
{
    if items.len() == 0 {
        Seq::new(4, |l: int| None)
    } else {
        let before = lists_after(items.drop_last());
        match items.last() {
            None => Seq::new(4, |l: int| None),
            Some((level, number)) => match before[level] {
                Some((start, count)) => before.update(level, Some((start, count + 1))),
                None => Seq::new(
                    4,
                    |l: int|
                        if l < level {
                            before[l]
                        } else if l == level {
                            Some((number, 1))
                        } else {
                            None
                        },
                ),
            },
        }
    }
}

/// Whether the list that an item belongs to can be counted up to it: its first number
/// and its length stay in the range of `u32` together.
pub open spec fn counts_up_to(items: Seq<Option<(int, int)>>, i: int) -> bool {
    match items[i] {
        Some((level, _)) => match lists_after(items.take(i + 1))[level] {
            Some((start, count)) => start + count <= u32::MAX,
            None => true,
        },
        None => true,
    }
}

/// Whether the lists of a text can be numbered.
pub open spec fn numbers_fit(md: Seq<char>) -> bool {
    let items = items_in(text::lines_of(md)).0;
    forall|i: int| 0 <= i < items.len() ==> #[trigger] counts_up_to(items, i)
}

/// A line begins as a numbered item in one way at most.
proof fn numbered_once(line: Seq<char>, a: int, b: int, x: int, y: int)
    requires
        0 <= a <= b <= line.len(),
        forall|j: int| 0 <= j < a ==> #[trigger] line[j] == ' ',
        a < line.len() ==> line[a] != ' ',
        forall|j: int| a <= j < b ==> text::is_digit(#[trigger] line[j]),
        b < line.len() ==> !text::is_digit(line[b]),
        numbered_at(line, x, y),
    ensures
        x == a,
        y == b,
{
    assert(text::is_digit(line[x]));
    if x < a {
        assert(line[x] == ' ');
    } else if x > a {
        assert(line[a] == ' ');
    }
    if y < b {
        assert(text::is_digit(line[y]));
    } else if y > b {
        assert(text::is_digit(line[b]));
    }
}

/// The level and the number of the numbered item that a line is.
pub fn find_item(line: &str) -> (r: Option<(usize, u64)>)
    ensures
        match (r, item_of(line@)) {
            (Some((level, number)), Some(item)) => item == (level as int, number as int) && level
                <= 3 && number <= u32::MAX,
            (None, None) => true,
            _ => false,
        },
{
    let v = text::chars_of(line);
    let mut a: usize = 0;
    while a < v.len() && v[a] == ' '
        invariant
            a <= v.len(),
            forall|j: int| 0 <= j < a ==> #[trigger] v@[j] == ' ',
        decreases v.len() - a,
    {
        a += 1;
    }
    let mut b: usize = a;
    while b < v.len() && '0' <= v[b] && v[b] <= '9'
        invariant
            a <= b <= v.len(),
            forall|j: int| a <= j < b ==> text::is_digit(#[trigger] v@[j]),
        decreases v.len() - b,
    {
        b += 1;
    }
    assert forall|x: int, y: int| #[trigger] numbered_at(line@, x, y) implies x == a && y == b by {
        numbered_once(line@, a as int, b as int, x, y);
    }
    if a > 3 || a == b || b == v.len() || (v[b] != '.' && v[b] != ')') {
        return None;
    }
    if b + 1 < v.len() && v[b + 1] != ' ' {
        return None;
    }
    assert(numbered_at(line@, a as int, b as int));
    let digits = text::text_of(&v, a, b);
    let ghost d = line@.subrange(a as int, b as int);
    assert(text::is_digit(v@[a as int]));
    assert(d[0] == v@[a as int]);
    assert(text::unsigned(d) == d);
    assert forall|j: int| 0 <= j < d.len() implies text::is_digit(#[trigger] d[j]) by {
        assert(d[j] == v@[a + j]);
    }
    match text::parse_number(digits.as_str(), u32::MAX as u64) {
        Some(number) => Some((a, number)),
        None => Some((a, 1)),
    }
}

/// Lists under way, in numbers of any size.
spec fn held(lists: Seq<Option<(u64, u64)>>) -> Seq<Option<(int, int)>> {
    Seq::new(
        lists.len(),
        |l: int|
            match lists[l] {
                Some((start, count)) => Some((start as int, count as int)),
                None => None,
            },
    )
}

/// What the first lines show comes first in what all lines show.
proof fn items_go_on(lines: Seq<Seq<char>>, n: int)
    requires
        0 <= n <= lines.len(),
    ensures
        items_in(lines.take(n)).0.is_prefix_of(items_in(lines).0),
    decreases lines.len(),
{
    if n == lines.len() {
        assert(lines.take(n) =~= lines);
    } else {
        items_go_on(lines.drop_last(), n);
        assert(lines.drop_last().take(n) =~= lines.take(n));
    }
}

/// Whether a list can be counted up to an item does not depend on what follows.
proof fn counting_looks_back(first: Seq<Option<(int, int)>>, all: Seq<Option<(int, int)>>, i: int)
    requires
        first.is_prefix_of(all),
        0 <= i < first.len(),
    ensures
        counts_up_to(first, i) == counts_up_to(all, i),
{
    assert(first.take(i + 1) =~= all.take(i + 1));
}

/// Counts one more item in the lists under way.
fn count_item(lists: &mut Vec<Option<(u64, u64)>>, level: usize, number: u64)
    requires
        old(lists)@.len() == 4,
        level <= 3,
        old(lists)@[level as int] matches Some((_, count)) ==> count < u64::MAX,
    ensures
        final(lists)@.len() == 4,
        forall|before: Seq<Option<(int, int)>>|
            #![trigger lists_after(before)]
            held(old(lists)@) == lists_after(before) ==> held(final(lists)@) == lists_after(
                before.push(Some((level as int, number as int))),
            ),
{
    let ghost was = lists@;
    match lists[level] {
        Some((start, count)) => {
            lists.set(level, Some((start, count + 1)));
        },
        None => {
            lists.set(level, Some((number, 1)));
            let mut l: usize = level + 1;
            while l < 4
                invariant
                    level < l <= 4,
                    lists@.len() == 4,
                    forall|j: int| 0 <= j < level ==> #[trigger] lists@[j] == was[j],
                    lists@[level as int] == Some((number, 1u64)),
                    forall|j: int| level < j < l ==> (#[trigger] lists@[j]) is None,
                decreases 4 - l,
            {
                lists.set(l, None);
                l += 1;
            }
        },
    }
    assert forall|before: Seq<Option<(int, int)>>|
        #![trigger lists_after(before)]
        held(was) == lists_after(before) implies held(lists@) == lists_after(
        before.push(Some((level as int, number as int))),
    ) by {
        let after = before.push(Some((level as int, number as int)));
        assert(after.drop_last() =~= before);
        assert(held(was)[level as int] == lists_after(before)[level as int]);
        assert forall|l: int| 0 <= l < 4 implies held(lists@)[l] == lists_after(after)[l] by {
            assert(held(was)[l] == lists_after(before)[l]);
        }
        assert(lists_after(before).len() == 4);
        assert(held(lists@) =~= lists_after(after));
    }
}

/// Whether the lists of a text can be numbered.
pub fn can_number(md: &str) -> (r: bool)
    ensures
        r == numbers_fit(md@),
{
    let lines = text::lines(md);
    let ghost all = text::lines_of(md@);
    let mut lists: Vec<Option<(u64, u64)>> = vec![None, None, None, None];
    let mut in_code = false;
    let ghost mut items: Seq<Option<(int, int)>> = seq![];
    let mut i: usize = 0;
    proof {
        assert(all.take(0) =~= seq![]);
        assert(held(lists@) =~= lists_after(items));
    }
    while i < lines.len()
        invariant
            i <= lines.len(),
            all == text::views(lines@),
            all == text::lines_of(md@),
            (items, in_code) == items_in(all.take(i as int)),
            lists@.len() == 4,
            held(lists@) == lists_after(items),
            forall|l: int|
                0 <= l < 4 ==> ((#[trigger] lists@[l]) matches Some((start, count)) ==> start
                    + count <= u32::MAX),
            forall|j: int| 0 <= j < items.len() ==> #[trigger] counts_up_to(items, j),
        decreases lines.len() - i,
    {
        let ghost before = items;
        let ghost line = all[i as int];
        proof {
            assert(all.take(i + 1).drop_last() =~= all.take(i as int));
            assert(all.take(i + 1).last() == line);
            assert(line == lines@[i as int]@);
        }
        if text::starts_with(lines[i].as_str(), "```") {
            in_code = !in_code;
        } else {
            let found = if in_code {
                None
            } else {
                find_item(lines[i].as_str())
            };
            let ghost item: Option<(int, int)> = match found {
                Some((level, number)) => Some((level as int, number as int)),
                None => None,
            };
            proof {
                items = before.push(item);
                assert(items_in(all.take(i + 1)) == (items, in_code));
                assert(items.drop_last() =~= before);
                assert(items.take(before.len() as int + 1) =~= items);
                assert forall|j: int| 0 <= j < before.len() implies #[trigger] counts_up_to(
                    items,
                    j,
                ) by {
                    counting_looks_back(before, items, j);
                }
            }
            match found {
                Some((level, number)) => {
                    let ghost was = lists@;
                    count_item(&mut lists, level, number);
                    assert(held(lists@)[level as int] == lists_after(items)[level as int]);
                    assert forall|l: int| 0 <= l < 4 && l != level implies (#[trigger] lists@[l])
                        == was[l] || lists@[l] is None by {
                        assert(held(lists@)[l] == lists_after(items)[l]);
                        assert(held(was)[l] == lists_after(before)[l]);
                        assert(held(was)[level as int] == lists_after(before)[level as int]);
                    }
                    if let Some((start, count)) = lists[level] {
                        assert(start <= u32::MAX && count <= u32::MAX + 1) by {
                            assert(held(was)[level as int] == lists_after(before)[level as int]);
                        }
                        if start + count > u32::MAX as u64 {
                            proof {
                                items_go_on(all, i + 1);
                                let k = before.len() as int;
                                counting_looks_back(items, items_in(all).0, k);
                                assert(!counts_up_to(items, k));
                            }
                            return false;
                        }
                    }
                    assert(counts_up_to(items, before.len() as int));
                },
                None => {
                    lists = vec![None, None, None, None];
                    assert(held(lists@) =~= lists_after(items));
                    assert(counts_up_to(items, before.len() as int));
                },
            }
        }
        i += 1;
    }
    assert(all.take(i as int) =~= all);
    true
}

// ---------------------------------------------------------------------------
// Laws
// ---------------------------------------------------------------------------

/// A line of up to three blanks, digits, a dot or a bracket and a blank is an item with that
/// number; other lines are none.
pub proof fn numbered_lines_are_items(
    a: int,
    digits: Seq<char>,
    dot: char,
    rest: Seq<char>,
)
    requires
        0 <= a <= 3,
        digits.len() > 0,
        forall|i: int| 0 <= i < digits.len() ==> text::is_digit(#[trigger] digits[i]),
        dot == '.' || dot == ')',
        text::value_of(digits) <= u32::MAX,
    ensures
        item_of(text::repeated(' ', a) + digits + seq![dot] + (seq![' '] + rest)) == Some(
            (a, text::value_of(digits) as int),
        ),
        item_of(text::repeated(' ', a) + digits + seq![dot]) == Some(
            (a, text::value_of(digits) as int),
        ),
        item_of(text::repeated(' ', a) + digits) is None,
{
    let b = a + digits.len();
    let line = text::repeated(' ', a) + digits + seq![dot] + (seq![' '] + rest);
    an_item_is_read(line, a, b);
    assert(line.subrange(a, b) =~= digits);
    let short = text::repeated(' ', a) + digits + seq![dot];
    an_item_is_read(short, a, b);
    assert(short.subrange(a, b) =~= digits);
    let bare = text::repeated(' ', a) + digits;
    if exists|x: int, y: int| numbered_at(bare, x, y) {
        let (x, y) = choose|x: int, y: int| numbered_at(bare, x, y);
        assert(forall|j: int| a <= j < b ==> #[trigger] bare[j] == digits[j - a]);
        assert(bare[a] == digits[0]);
        numbered_once(bare, a, b, x, y);
    }
}

proof fn an_item_is_read(line: Seq<char>, a: int, b: int)
    requires
        numbered_at(line, a, b),
    ensures
        item_of(line) == Some((a, number_read(line.subrange(a, b)))),
{
    let (x, y) = choose|x: int, y: int| numbered_at(line, x, y);
    assert(line[a] != ' ') by {
        assert(text::is_digit(line[a]));
    }
    numbered_once(line, a, b, x, y);
}

/// Between fences lines are no items, and the fences themselves are not lines at all.
pub proof fn code_has_no_items(lines: Seq<Seq<char>>, fence: Seq<char>, line: Seq<char>)
    requires
        fence.len() >= 3,
        fence.take(3) == "```"@,
        !(line.len() >= 3 && line.take(3) == "```"@),
    ensures
        items_in(Seq::<Seq<char>>::empty()) == (Seq::<Option<(int, int)>>::empty(), false),
        items_in(lines.push(fence)) == (items_in(lines).0, !items_in(lines).1),
        items_in(lines).1 ==> items_in(lines.push(line)) == (items_in(lines).0.push(None), true),
        !items_in(lines).1 ==> items_in(lines.push(line)) == (
            items_in(lines).0.push(item_of(line)),
            false,
        ),
{
    reveal_strlit("```");
    assert("```"@.len() == 3);
    assert(fence.subrange(0, 3) =~= fence.take(3));
    if line.len() >= 3 {
        assert(line.subrange(0, 3) =~= line.take(3));
    }
    assert(lines.push(fence).drop_last() =~= lines);
    assert(lines.push(line).drop_last() =~= lines);
}

/// A list counts on from the number of its first item; a line that is no item ends all lists,
/// and an item of a new list ends the lists that are deeper.
pub proof fn lists_count_on(
    items: Seq<Option<(int, int)>>,
    level: int,
    number: int,
    start: int,
    count: int,
    other: int,
)
    requires
        forall|i: int|
            0 <= i < items.len() ==> ((#[trigger] items[i]) matches Some((l, _)) ==> 0 <= l < 4),
        0 <= level < 4,
        0 <= other < 4,
    ensures
        lists_after(items.push(None))[other] is None,
        lists_after(items)[level] == Some((start, count)) ==> lists_after(
            items.push(Some((level, number))),
        )[level] == Some((start, count + 1)),
        lists_after(items)[level] is None ==> lists_after(items.push(Some((level, number))))[level]
            == Some((number, 1int)),
        lists_after(items)[level] is None && other > level ==> lists_after(
            items.push(Some((level, number))),
        )[other] is None,
        lists_after(items)[level] is None && other < level ==> lists_after(
            items.push(Some((level, number))),
        )[other] == lists_after(items)[other],
        lists_after(items)[level] == Some((start, count)) ==> counts_up_to(
            items.push(Some((level, number))),
            items.len() as int,
        ) == (start + count + 1 <= u32::MAX),
{
    let more = items.push(Some((level, number)));
    four_lists_are_kept(items);
    assert(more.drop_last() =~= items);
    assert(items.push(None).drop_last() =~= items);
    assert(more.take(items.len() as int + 1) =~= more);
}

proof fn four_lists_are_kept(items: Seq<Option<(int, int)>>)
    requires
        forall|i: int|
            0 <= i < items.len() ==> ((#[trigger] items[i]) matches Some((l, _)) ==> 0 <= l < 4),
    ensures
        lists_after(items).len() == 4,
    decreases items.len(),
{
    if items.len() > 0 {
        let before = items.drop_last();
        assert forall|i: int| 0 <= i < before.len() implies ((#[trigger] before[i]) matches Some(
            (l, _),
        ) ==> 0 <= l < 4) by {
            assert(before[i] == items[i]);
        }
        assert(items.last() == items[items.len() - 1]);
        four_lists_are_kept(before);
    }
}

} // verus!
