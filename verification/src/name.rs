use vstd::prelude::*;
use crate::text::{chars_of, string_of_range};

verus! {

/// A base name split into the part before its extension and the extension
/// itself, which never holds the separating dot.
pub struct DecomposedName {
    pub stem: String,
    pub extension: String,
}

/// The position of the last dot in `name`, or `-1` where it holds none.
pub open spec fn last_dot(name: Seq<char>) -> int
    decreases name.len(),
{
    if name.len() == 0 {
        -1
    } else if name.last() == '.' {
        name.len() - 1
    } else {
        last_dot(name.drop_last())
    }
}

/// Whether `name` has a dot that parts a stem from an extension: its last dot
/// is not its first character, and the name is not the parent entry `..`.
pub open spec fn has_separator(name: Seq<char>) -> bool {
    last_dot(name) > 0 && name != seq!['.', '.']
}

/// The stem of `name`: what stands before the separating dot, or the whole
/// name where no dot separates.
pub open spec fn stem_of(name: Seq<char>) -> Seq<char> {
    if has_separator(name) {
        name.take(last_dot(name))
    } else {
        name
    }
}

/// The extension of `name`: what stands after the separating dot, or nothing
/// where no dot separates.
pub open spec fn extension_of(name: Seq<char>) -> Seq<char> {
    if has_separator(name) {
        name.skip(last_dot(name) + 1)
    } else {
        Seq::empty()
    }
}

/// A base name put together again: the stem alone where the extension is
/// empty, else stem, dot and extension.
pub open spec fn joined(stem: Seq<char>, extension: Seq<char>) -> Seq<char> {
    if extension.len() == 0 {
        stem
    } else {
        stem.push('.') + extension
    }
}

/// `extension` without the dots it begins with.
pub open spec fn without_leading_dots(extension: Seq<char>) -> Seq<char>
    decreases extension.len(),
{
    if extension.len() > 0 && extension[0] == '.' {
        without_leading_dots(extension.skip(1))
    } else {
        extension
    }
}

/// `last_dot` finds a dot where there is one, and no dot stands after it.
pub proof fn lemma_last_dot(name: Seq<char>)
    ensures
        -1 <= last_dot(name) < name.len(),
        last_dot(name) >= 0 ==> name[last_dot(name)] == '.',
        forall|j: int| last_dot(name) < j < name.len() ==> name[j] != '.',
    decreases name.len(),
{
    if name.len() > 0 && name.last() != '.' {
        let front = name.drop_last();
        lemma_last_dot(front);
        assert forall|j: int| last_dot(name) < j < name.len() implies name[j] != '.' by {
            if j < front.len() {
                assert(front[j] == name[j]);
            }
        }
    }
}

/// An extension never holds a dot, and a name with a non-empty extension has a
/// non-empty stem.
pub proof fn lemma_extension_shape(name: Seq<char>)
    ensures
        forall|j: int| 0 <= j < extension_of(name).len() ==> extension_of(name)[j] != '.',
        extension_of(name).len() > 0 ==> stem_of(name).len() > 0,
        stem_of(name).len() + extension_of(name).len() <= name.len(),
{
    lemma_last_dot(name);
}

/// Splitting a name and joining the parts gives the name back, unless a
/// separating dot is the name's last character: that dot is dropped.
pub proof fn lemma_join_of_parts(name: Seq<char>)
    ensures
        joined(stem_of(name), extension_of(name)) == if has_separator(name) && last_dot(name)
            == name.len() - 1 {
            name.drop_last()
        } else {
            name
        },
{
    lemma_last_dot(name);
    if has_separator(name) {
        let d = last_dot(name);
        if d == name.len() - 1 {
            assert(name.take(d) == name.drop_last());
        } else {
            assert(name.take(d).push('.') + name.skip(d + 1) == name);
        }
    }
}

/// Joining a non-empty stem and a non-empty extension without a dot, and
/// splitting the result, gives both parts back.
pub proof fn lemma_parts_of_join(stem: Seq<char>, extension: Seq<char>)
    requires
        stem.len() > 0,
        extension.len() > 0,
        forall|j: int| 0 <= j < extension.len() ==> extension[j] != '.',
    ensures
        stem_of(joined(stem, extension)) == stem,
        extension_of(joined(stem, extension)) == extension,
{
    let name = joined(stem, extension);
    let at = stem.len() as int;
    lemma_last_dot(name);
    let d = last_dot(name);
    assert(name.len() == at + 1 + extension.len());
    assert(name[at] == '.');
    if d > at {
        assert(name[d] == extension[d - at - 1]);
    }
    assert(d == at);
    assert(name.take(at) =~= stem);
    assert(name.skip(at + 1) =~= extension);
}

/// Splits a base name into stem and extension.
pub fn decompose(name: &str) -> (parts: DecomposedName)
    ensures
        parts.stem@ == stem_of(name@),
        parts.extension@ == extension_of(name@),
{
    let chars = chars_of(name);
    let n = chars.len();
    let mut dot: Option<usize> = None;
    let mut i: usize = 0;
    while i < n
        invariant
            i <= n,
            n == chars.len(),
            match dot {
                Some(d) => d < i && last_dot(chars@.take(i as int)) == d,
                None => last_dot(chars@.take(i as int)) == -1,
            },
        decreases n - i,
    {
        assert(chars@.take(i + 1).drop_last() == chars@.take(i as int));
        if chars[i] == '.' {
            dot = Some(i);
        }
        i += 1;
    }
    assert(chars@.take(n as int) == chars@);
    let parent = n == 2 && chars[0] == '.' && chars[1] == '.';
    assert(parent == (chars@ == seq!['.', '.'])) by {
        if parent {
            assert(chars@ =~= seq!['.', '.']);
        }
    }
    match dot {
        Some(d) if d > 0 && !parent => DecomposedName {
            stem: string_of_range(&chars, 0, d),
            extension: string_of_range(&chars, d + 1, n),
        },
        _ => DecomposedName { stem: string_of_range(&chars, 0, n), extension: String::new() },
    }
}

/// Removes the dots that `extension` begins with.
pub fn strip_leading_dots(extension: &str) -> (bare: String)
    ensures
        bare@ == without_leading_dots(extension@),
{
    let chars = chars_of(extension);
    let mut i: usize = 0;
    assert(chars@.skip(0) == chars@);
    while i < chars.len() && chars[i] == '.'
        invariant
            i <= chars.len(),
            without_leading_dots(chars@.skip(i as int)) == without_leading_dots(chars@),
        decreases chars.len() - i,
    {
        assert(chars@.skip(i as int).skip(1) == chars@.skip(i + 1));
        i += 1;
    }
    string_of_range(&chars, i, chars.len())
}

/// Puts a stem and an extension together into a base name.
pub fn join_name_ext(stem: &str, ext: &str) -> (name: String)
    ensures
        name@ == joined(stem@, ext@),
{
    let mut name = stem.to_owned();
    if !ext.is_empty() {
        name.push('.');
        name.append(ext);
    }
    name
}

} // verus!
