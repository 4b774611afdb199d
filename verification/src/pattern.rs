use vstd::prelude::*;

verus! {

/// Why `regex::Regex::new` rejects a pattern: the text of the error it
/// returns, or `None` where the pattern compiles.
pub uninterp spec fn pattern_fault(pattern: Seq<char>) -> Option<Seq<char>>;

/// What `regex::Regex::replace_all` returns for the regular expression
/// compiled from `pattern`, the haystack `text` and the replacement `to`, in
/// which `$name` stands for a capture group.
pub uninterp spec fn pattern_replaced(pattern: Seq<char>, text: Seq<char>, to: Seq<char>) -> Seq<
    char,
>;

/// Compiles `pattern` with `regex::Regex::new` and, where that succeeds,
/// replaces every match in `text` with `regex::Regex::replace_all`. Both
/// depend on their arguments alone. A pattern that does not compile gives the
/// text of the error of `regex`.
#[verifier::external_body]
pub(crate) fn replace_matches(pattern: &str, text: &str, to: &str) -> (outcome: Result<
    String,
    String,
>)
    ensures
        match outcome {
            Ok(replaced) => pattern_fault(pattern@) is None && replaced@ == pattern_replaced(
                pattern@,
                text@,
                to@,
            ),
            Err(detail) => pattern_fault(pattern@) == Some(detail@),
        },
{
    match regex::Regex::new(pattern) {
        Ok(re) => Ok(re.replace_all(text, to).into_owned()),
        Err(e) => Err(e.to_string()),
    }
}

} // verus!
