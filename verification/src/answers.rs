//! The user's answers to an agent's questions.

use vstd::prelude::*;

use crate::text;

verus! {

/// Answers, each under its question.
pub open spec fn answer_views(v: Seq<(String, String)>) -> Seq<(Seq<char>, Seq<char>)> {
    Seq::new(v.len(), |i: int| (v[i].0@, v[i].1@))
}

/// The place of the answer to a question; past the end where there is none.
pub open spec fn place_of(v: Seq<(Seq<char>, Seq<char>)>, header: Seq<char>) -> int
    decreases v.len(),
{
    if v.len() == 0 || v[0].0 == header {
        0
    } else {
        1 + place_of(v.skip(1), header)
    }
}

/// The place of an answer is one of the places, and the first with the question.
proof fn place_of_bounds(v: Seq<(Seq<char>, Seq<char>)>, header: Seq<char>)
    ensures
        0 <= place_of(v, header) <= v.len(),
        place_of(v, header) < v.len() ==> v[place_of(v, header)].0 == header,
        forall|i: int| 0 <= i < place_of(v, header) ==> (#[trigger] v[i]).0 != header,
    decreases v.len(),
{
    if v.len() > 0 && v[0].0 != header {
        place_of_bounds(v.skip(1), header);
        assert forall|i: int| 0 <= i < place_of(v, header) implies (#[trigger] v[i]).0
            != header by {
            if i > 0 {
                assert(v.skip(1)[i - 1] == v[i]);
            }
        }
    }
}

/// A place with the question, and none before it, is the place of the answer.
proof fn place_is(v: Seq<(Seq<char>, Seq<char>)>, header: Seq<char>, i: int)
    requires
        0 <= i <= v.len(),
        i < v.len() ==> v[i].0 == header,
        forall|j: int| 0 <= j < i ==> (#[trigger] v[j]).0 != header,
    ensures
        place_of(v, header) == i,
{
    place_of_bounds(v, header);
    let p = place_of(v, header);
    if p < i {
        assert(v[p].0 != header);
    } else if i < p {
        assert(v[i].0 != header);
    }
}

/// The answers with one more, in place of another to the same question.
pub open spec fn with_answer(
    v: Seq<(Seq<char>, Seq<char>)>,
    header: Seq<char>,
    answer: Seq<char>,
) -> Seq<(Seq<char>, Seq<char>)> {
    let i = place_of(v, header);
    if i < v.len() {
        v.update(i, (header, answer))
    } else {
        v.push((header, answer))
    }
}

/// Adds an answer, in place of another to the same question.
pub fn put_answer(answers: &mut Vec<(String, String)>, header: &str, answer: &str)
    ensures
        answer_views(final(answers)@) == with_answer(
            answer_views(old(answers)@),
            header@,
            answer@,
        ),
{
    let ghost was = answer_views(answers@);
    let mut i: usize = 0;
    while i < answers.len()
        invariant
            i <= answers.len(),
            *answers == *old(answers),
            was == answer_views(answers@),
            forall|j: int| 0 <= j < i ==> (#[trigger] was[j]).0 != header@,
        decreases answers.len() - i,
    {
        if text::same(answers[i].0.as_str(), header) {
            proof {
                place_is(was, header@, i as int);
            }
            answers.set(i, (header.to_string(), answer.to_string()));
            assert(answer_views(answers@) =~= was.update(i as int, (header@, answer@)));
            return ;
        }
        i += 1;
    }
    proof {
        place_is(was, header@, i as int);
    }
    answers.push((header.to_string(), answer.to_string()));
    assert(answer_views(answers@) =~= was.push((header@, answer@)));
}

/// Adding an answer makes it the answer to its question, and leaves those to other
/// questions as they are.
pub proof fn the_last_answer_counts(
    v: Seq<(Seq<char>, Seq<char>)>,
    header: Seq<char>,
    answer: Seq<char>,
    other: Seq<char>,
)
    requires
        other != header,
    ensures
        ({
            let w = with_answer(v, header, answer);
            &&& place_of(w, header) < w.len()
            &&& w[place_of(w, header)] == (header, answer)
            &&& place_of(v, other) < v.len() ==> place_of(w, other) < w.len() && w[place_of(
                w,
                other,
            )] == v[place_of(v, other)]
            &&& place_of(v, other) == v.len() ==> place_of(w, other) == w.len()
        }),
{
    let w = with_answer(v, header, answer);
    place_of_bounds(v, header);
    place_of_bounds(v, other);
    let i = place_of(v, header);
    let k = place_of(v, other);
    assert forall|j: int| 0 <= j < i implies (#[trigger] w[j]).0 != header by {
        assert(v[j].0 != header);
    }
    place_is(w, header, i);
    if k < v.len() {
        assert forall|j: int| 0 <= j < k implies (#[trigger] w[j]).0 != other by {
            assert(v[j].0 != other);
        }
        place_is(w, other, k);
    } else {
        assert forall|j: int| 0 <= j < w.len() implies (#[trigger] w[j]).0 != other by {
            if j < v.len() {
                assert(v[j].0 != other);
            }
        }
        place_is(w, other, w.len() as int);
    }
}

} // verus!
