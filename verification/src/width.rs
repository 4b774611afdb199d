use vstd::prelude::*;

verus! {

/// The distance between a visible ASCII character and its full-width form.
pub const WIDTH_OFFSET: u32 = 0xFEE0;

/// The ideographic space, the full-width form of the space character.
pub const FULL_WIDTH_SPACE: char = '\u{3000}';

/// Whether `c` is the space or a visible ASCII character, the characters that
/// have a full-width form.
pub open spec fn has_full_width_form(c: char) -> bool {
    ' ' <= c && c <= '~'
}

/// Whether `c` is the full-width form of an ASCII character.
pub open spec fn has_half_width_form(c: char) -> bool {
    c == FULL_WIDTH_SPACE || ('\u{FF01}' <= c && c <= '\u{FF5E}')
}

/// The full-width form of `c`, or `c` itself where it has none.
pub open spec fn full_width_char(c: char) -> char {
    if c == ' ' {
        FULL_WIDTH_SPACE
    } else if '!' <= c && c <= '~' {
        (c as u32 + WIDTH_OFFSET) as char
    } else {
        c
    }
}

/// The ASCII character of which `c` is the full-width form, or `c` itself
/// where it is none.
pub open spec fn half_width_char(c: char) -> char {
    if c == FULL_WIDTH_SPACE {
        ' '
    } else if '\u{FF01}' <= c && c <= '\u{FF5E}' {
        (c as u32 - WIDTH_OFFSET) as char
    } else {
        c
    }
}

/// `text` with each character in its full-width form.
pub open spec fn full_width(text: Seq<char>) -> Seq<char> {
    Seq::new(text.len(), |i: int| full_width_char(text[i]))
}

/// `text` with each full-width character turned back into ASCII.
pub open spec fn half_width(text: Seq<char>) -> Seq<char> {
    Seq::new(text.len(), |i: int| half_width_char(text[i]))
}

/// Turns one character into its full-width form.
pub fn widen_char(c: char) -> (w: char)
    ensures
        w == full_width_char(c),
{
    if c == ' ' {
        FULL_WIDTH_SPACE
    } else if '!' <= c && c <= '~' {
        char::from_u32(c as u32 + WIDTH_OFFSET).unwrap_or(c)
    } else {
        c
    }
}

/// Turns one full-width character back into ASCII.
pub fn narrow_char(c: char) -> (n: char)
    ensures
        n == half_width_char(c),
{
    if c == FULL_WIDTH_SPACE {
        ' '
    } else if '\u{FF01}' <= c && c <= '\u{FF5E}' {
        char::from_u32(c as u32 - WIDTH_OFFSET).unwrap_or(c)
    } else {
        c
    }
}

/// Turns the space and every visible ASCII character of `s` into its
/// full-width form and leaves all other characters as they are.
pub fn to_zenkaku(s: &str) -> (out: String)
    ensures
        out@ == full_width(s@),
{
    let mut out = String::new();
    for c in it: s.chars()
        invariant
            it.seq() == s@,
            out@ == full_width(s@).take(it.index() as int),
    {
        out.push(widen_char(c));
    }
    out
}

/// Turns every full-width character of `s` back into ASCII and leaves all
/// other characters as they are.
pub fn to_hankaku(s: &str) -> (out: String)
    ensures
        out@ == half_width(s@),
{
    let mut out = String::new();
    for c in it: s.chars()
        invariant
            it.seq() == s@,
            out@ == half_width(s@).take(it.index() as int),
    {
        out.push(narrow_char(c));
    }
    out
}

/// Widening and then narrowing gives back every character that has a
/// full-width form; narrowing and then widening gives back every full-width
/// character.
pub proof fn lemma_char_round_trip(c: char)
    ensures
        has_full_width_form(c) ==> half_width_char(full_width_char(c)) == c,
        has_half_width_form(c) ==> full_width_char(half_width_char(c)) == c,
        has_full_width_form(c) ==> has_half_width_form(full_width_char(c)),
        has_half_width_form(c) ==> has_full_width_form(half_width_char(c)),
{
}

/// Converting a character that is already converted changes nothing.
pub proof fn lemma_char_idempotent(c: char)
    ensures
        full_width_char(full_width_char(c)) == full_width_char(c),
        half_width_char(half_width_char(c)) == half_width_char(c),
{
}

/// Widening a text and narrowing the result gives the text back, provided the
/// text is made of spaces and visible ASCII characters only.
pub proof fn lemma_half_of_full(text: Seq<char>)
    requires
        forall|i: int| 0 <= i < text.len() ==> has_full_width_form(text[i]),
    ensures
        half_width(full_width(text)) == text,
{
    assert forall|i: int| 0 <= i < text.len() implies half_width(full_width(text))[i]
        == text[i] by {
        lemma_char_round_trip(text[i]);
    }
}

/// Narrowing a text and widening the result gives the text back, provided the
/// text is made of full-width characters only.
pub proof fn lemma_full_of_half(text: Seq<char>)
    requires
        forall|i: int| 0 <= i < text.len() ==> has_half_width_form(text[i]),
    ensures
        full_width(half_width(text)) == text,
{
    assert forall|i: int| 0 <= i < text.len() implies full_width(half_width(text))[i]
        == text[i] by {
        lemma_char_round_trip(text[i]);
    }
}

/// Both conversions keep the number of characters, and applying one a second
/// time changes nothing.
pub proof fn lemma_width_idempotent(text: Seq<char>)
    ensures
        full_width(text).len() == text.len(),
        half_width(text).len() == text.len(),
        full_width(full_width(text)) == full_width(text),
        half_width(half_width(text)) == half_width(text),
{
    assert forall|i: int| 0 <= i < text.len() implies full_width(full_width(text))[i]
        == full_width(text)[i] by {
        lemma_char_idempotent(text[i]);
    }
    assert forall|i: int| 0 <= i < text.len() implies half_width(half_width(text))[i]
        == half_width(text)[i] by {
        lemma_char_idempotent(text[i]);
    }
}

} // verus!
