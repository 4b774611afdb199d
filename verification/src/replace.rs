use vstd::prelude::*;
use crate::text::{chars_of, push_all, string_of};

verus! {

/// Whether `pattern` stands in `text` at position `at`.
pub open spec fn occurs_at(text: Seq<char>, pattern: Seq<char>, at: int) -> bool {
    &&& 0 <= at
    &&& at + pattern.len() <= text.len()
    &&& text.subrange(at, at + pattern.len()) == pattern
}

/// `text` with every occurrence of `from` replaced by `to`. Occurrences are
/// taken from left to right and do not overlap. An empty `from` occurs before
/// every character and once more at the end.
pub open spec fn replace_all(text: Seq<char>, from: Seq<char>, to: Seq<char>) -> Seq<char>
    decreases text.len(),
{
    if text.len() == 0 {
        if from.len() == 0 {
            to
        } else {
            text
        }
    } else if from.len() == 0 {
        to.push(text[0]) + replace_all(text.skip(1), from, to)
    } else if occurs_at(text, from, 0) {
        to + replace_all(text.skip(from.len() as int), from, to)
    } else {
        seq![text[0]] + replace_all(text.skip(1), from, to)
    }
}

/// A text in which `from` occurs nowhere is left as it is.
pub proof fn lemma_replace_without_occurrence(text: Seq<char>, from: Seq<char>, to: Seq<char>)
    requires
        from.len() > 0,
        forall|at: int| 0 <= at <= text.len() ==> !occurs_at(text, from, at),
    ensures
        replace_all(text, from, to) == text,
    decreases text.len(),
{
    if text.len() > 0 {
        let rest = text.skip(1);
        assert forall|at: int| 0 <= at <= rest.len() implies !occurs_at(rest, from, at) by {
            assert(!occurs_at(text, from, at + 1));
            if at + from.len() <= rest.len() {
                assert(rest.subrange(at, at + from.len()) =~= text.subrange(
                    at + 1,
                    at + 1 + from.len(),
                ));
            }
        }
        lemma_replace_without_occurrence(rest, from, to);
        assert(!occurs_at(text, from, 0));
        assert(seq![text[0]] + rest =~= text);
    }
}

/// An occurrence at the very front is replaced, and the search goes on
/// behind it: replacing `from` in `from + rest` gives `to` followed by what
/// replacing makes of `rest`.
pub proof fn lemma_replace_at_front(rest: Seq<char>, from: Seq<char>, to: Seq<char>)
    requires
        from.len() > 0,
    ensures
        replace_all(from + rest, from, to) == to + replace_all(rest, from, to),
{
    let text = from + rest;
    assert(text.subrange(0, from.len() as int) =~= from);
    assert(text.skip(from.len() as int) =~= rest);
}

/// Tells whether `pattern` stands in `text` at position `at`.
pub fn matches_at(text: &Vec<char>, pattern: &Vec<char>, at: usize) -> (found: bool)
    ensures
        found == occurs_at(text@, pattern@, at as int),
{
    if at > text.len() || pattern.len() > text.len() - at {
        return false;
    }
    let mut k: usize = 0;
    while k < pattern.len()
        invariant
            at + pattern.len() <= text.len(),
            k <= pattern.len(),
            text@.subrange(at as int, at + k) == pattern@.take(k as int),
        decreases pattern.len() - k,
    {
        if text[at + k] != pattern[k] {
            return false;
        }
        k += 1;
    }
    assert(pattern@.take(pattern.len() as int) == pattern@);
    true
}

/// Replaces every occurrence of `from` in `text` by `to`.
pub fn replace_literal(text: &str, from: &str, to: &str) -> (out: String)
    ensures
        out@ == replace_all(text@, from@, to@),
{
    let source = chars_of(text);
    let pattern = chars_of(from);
    let filler = chars_of(to);
    let mut built: Vec<char> = Vec::new();
    let mut i: usize = 0;
    assert(source@.skip(0) == source@);
    while i < source.len()
        invariant
            i <= source.len(),
            built@ + replace_all(source@.skip(i as int), pattern@, filler@) == replace_all(
                source@,
                pattern@,
                filler@,
            ),
        decreases source.len() - i,
    {
        let ghost rest = source@.skip(i as int);
        let ghost done = built@;
        if pattern.len() == 0 {
            push_all(&mut built, &filler);
            built.push(source[i]);
            assert(rest.skip(1) == source@.skip(i + 1));
            i += 1;
        } else if matches_at(&source, &pattern, i) {
            push_all(&mut built, &filler);
            assert(rest.skip(pattern.len() as int) == source@.skip(i + pattern.len()));
            assert(built@ + replace_all(rest.skip(pattern.len() as int), pattern@, filler@) == done
                + (filler@ + replace_all(rest.skip(pattern.len() as int), pattern@, filler@)));
            i += pattern.len();
        } else {
            assert(i + pattern.len() <= source.len() ==> rest.subrange(0, pattern.len() as int)
                == source@.subrange(i as int, i + pattern.len()));
            built.push(source[i]);
            assert(rest.skip(1) == source@.skip(i + 1));
            i += 1;
        }
    }
    if pattern.len() == 0 {
        push_all(&mut built, &filler);
    }
    string_of(&built)
}

} // verus!
