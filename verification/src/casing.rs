use vstd::prelude::*;

verus! {

/// What `str::to_uppercase` makes of a text: its upper-case form by the
/// Unicode case mapping of the standard library.
pub uninterp spec fn uppercase_of(text: Seq<char>) -> Seq<char>;

/// What `str::to_lowercase` makes of a text: its lower-case form by the
/// Unicode case mapping of the standard library.
pub uninterp spec fn lowercase_of(text: Seq<char>) -> Seq<char>;

/// `str::to_uppercase` returns a new string that depends on the characters of
/// its argument alone. Nothing is claimed of the mapping itself.
pub assume_specification[ str::to_uppercase ](s: &str) -> (upper: String)
    ensures
        upper@ == uppercase_of(s@),
;

/// `str::to_lowercase` returns a new string that depends on the characters of
/// its argument alone. Nothing is claimed of the mapping itself.
pub assume_specification[ str::to_lowercase ](s: &str) -> (lower: String)
    ensures
        lower@ == lowercase_of(s@),
;

} // verus!
