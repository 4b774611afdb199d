use vstd::prelude::*;
use crate::casing::{lowercase_of, uppercase_of};
use crate::decimal::{decimal_digits, push_decimal, push_zero_padded, zero_padded};
use crate::name::{
    decompose, extension_of, has_separator, join_name_ext, joined, last_dot, lemma_extension_shape,
    lemma_last_dot, lemma_parts_of_join, stem_of, strip_leading_dots, without_leading_dots,
};
use crate::pattern::{pattern_fault, pattern_replaced, replace_matches};
use crate::replace::{replace_all, replace_literal};
use crate::text::{chars_of, push_all, string_of, string_of_range};
use crate::width::{
    full_width, full_width_char, half_width, has_full_width_form, lemma_half_of_full, to_hankaku,
    to_zenkaku,
};

verus! {

/// Which end of the stem an edit applies to.
#[derive(Clone, Copy, Debug, PartialEq, Eq, Structural)]
pub enum Position {
    Start,
    End,
}

/// The letter case a stem is turned into.
#[derive(Clone, Copy, Debug, PartialEq, Eq, Structural)]
pub enum CaseMode {
    Upper,
    Lower,
}

/// The direction of a width conversion: `Zenkaku` is full width, `Hankaku`
/// half width.
#[derive(Clone, Copy, Debug, PartialEq, Eq, Structural)]
pub enum WidthMode {
    Zenkaku,
    Hankaku,
}

/// One rule for making a new base name out of an old one.
#[derive(Debug)]
#[allow(inconsistent_fields)]
pub enum RenameCommand {
    /// The new name is `name`, followed by the old extension if `keep_ext`.
    Fixed { name: String, keep_ext: bool },
    /// The new name is a number between `prefix` and `suffix`, with the old
    /// stem before the number if `keep_original`, and followed by the old
    /// extension if `keep_ext`.
    Serial {
        prefix: String,
        suffix: String,
        number: u32,
        pad: usize,
        keep_ext: bool,
        keep_original: bool,
    },
    /// Every occurrence of `from` in the whole base name becomes `to`; with
    /// `use_regex`, `from` is a regular expression.
    Replace { from: String, to: String, use_regex: bool },
    /// `text` is put before or after the stem.
    Add { text: String, position: Position },
    /// `count` characters are taken off one end of the stem.
    Trim { count: usize, position: Position },
    /// The old extension gives way to `new_ext`.
    Extension { new_ext: String },
    /// The stem changes its letter case.
    Case { mode: CaseMode },
    /// The stem changes the width of its characters.
    Convert { mode: WidthMode },
}

/// Why a rule produced no name.
#[derive(Debug)]
pub enum EvaluationError {
    /// The pattern of a `Replace` rule is no regular expression; `detail`
    /// says why.
    InvalidPattern { detail: String },
    /// A `Trim` rule asked for `count` characters of a stem that has only
    /// `length`; taking all of them is refused as well.
    TrimExceedsLength { count: usize, length: usize },
}

/// An `EvaluationError` with its text as a sequence of characters.
pub enum EvaluationErrorView {
    InvalidPattern { detail: Seq<char> },
    TrimExceedsLength { count: nat, length: nat },
}

impl EvaluationErrorView {
    /// The sentence that reports the error.
    pub open spec fn message(self) -> Seq<char> {
        match self {
            EvaluationErrorView::InvalidPattern { detail } => "Regex error: "@ + detail,
            EvaluationErrorView::TrimExceedsLength { count, length } => "Trim count ("@
                + decimal_digits(count) + ") exceeds name length ("@ + decimal_digits(length)
                + ")"@,
        }
    }
}

impl View for EvaluationError {
    type V = EvaluationErrorView;

    open spec fn view(&self) -> EvaluationErrorView {
        match *self {
            EvaluationError::InvalidPattern { detail } => EvaluationErrorView::InvalidPattern {
                detail: detail@,
            },
            EvaluationError::TrimExceedsLength {
                count,
                length,
            } => EvaluationErrorView::TrimExceedsLength {
                count: count as nat,
                length: length as nat,
            },
        }
    }
}

impl EvaluationError {
    /// The sentence that reports the error.
    pub fn message(&self) -> (text: String)
        ensures
            text@ == self@.message(),
    {
        match self {
            EvaluationError::InvalidPattern { detail } => {
                let mut text = "Regex error: ".to_owned();
                text.append(detail.as_str());
                text
            },
            EvaluationError::TrimExceedsLength { count, length } => {
                let mut numbers: Vec<char> = Vec::new();
                push_decimal(&mut numbers, *count as u64);
                let mut text = "Trim count (".to_owned();
                text.append(string_of(&numbers).as_str());
                text.append(") exceeds name length (");
                let mut numbers: Vec<char> = Vec::new();
                push_decimal(&mut numbers, *length as u64);
                text.append(string_of(&numbers).as_str());
                text.append(")");
                text
            },
        }
    }
}

/// The outcome of an evaluation with its texts as sequences of characters.
pub open spec fn evaluated(result: Result<String, EvaluationError>) -> Result<
    Seq<char>,
    EvaluationErrorView,
> {
    match result {
        Ok(name) => Ok(name@),
        Err(error) => Err(error@),
    }
}

/// `stem` without `count` characters at the given end.
pub open spec fn trimmed(stem: Seq<char>, count: nat, position: Position) -> Seq<char>
    recommends
        count <= stem.len(),
{
    match position {
        Position::Start => stem.skip(count as int),
        Position::End => stem.take(stem.len() - count),
    }
}

/// The name that a `Serial` rule generates before any extension is added.
pub open spec fn serial_body(
    prefix: Seq<char>,
    suffix: Seq<char>,
    number: nat,
    pad: nat,
    old_stem: Option<Seq<char>>,
) -> Seq<char> {
    match old_stem {
        Some(stem) => prefix + stem + zero_padded(number, pad) + suffix,
        None => prefix + zero_padded(number, pad) + suffix,
    }
}

impl RenameCommand {
    /// Whether the rule works on the stem and puts the old extension back.
    pub open spec fn keeps_extension(self) -> bool {
        match self {
            RenameCommand::Fixed { keep_ext, .. } => keep_ext,
            RenameCommand::Serial { keep_ext, .. } => keep_ext,
            RenameCommand::Replace { .. } => false,
            RenameCommand::Add { .. } => true,
            RenameCommand::Trim { .. } => true,
            RenameCommand::Extension { .. } => false,
            RenameCommand::Case { .. } => true,
            RenameCommand::Convert { .. } => true,
        }
    }

    /// What the rule makes of the base name `name`: the new base name, or the
    /// reason why there is none.
    pub open spec fn outcome(self, name: Seq<char>) -> Result<Seq<char>, EvaluationErrorView> {
        let stem = stem_of(name);
        let ext = extension_of(name);
        match self {
            RenameCommand::Fixed { name: fixed, keep_ext } => Ok(
                if keep_ext {
                    joined(fixed@, ext)
                } else {
                    fixed@
                },
            ),
            RenameCommand::Serial { prefix, suffix, number, pad, keep_ext, keep_original } => {
                let body = serial_body(
                    prefix@,
                    suffix@,
                    number as nat,
                    pad as nat,
                    if keep_original {
                        Some(stem)
                    } else {
                        None
                    },
                );
                Ok(
                    if keep_ext {
                        joined(body, ext)
                    } else {
                        body
                    },
                )
            },
            RenameCommand::Replace { from, to, use_regex } => {
                if !use_regex {
                    Ok(replace_all(name, from@, to@))
                } else {
                    match pattern_fault(from@) {
                        Some(detail) => Err(EvaluationErrorView::InvalidPattern { detail }),
                        None => Ok(pattern_replaced(from@, name, to@)),
                    }
                }
            },
            RenameCommand::Add { text, position } => Ok(
                joined(
                    match position {
                        Position::Start => text@ + stem,
                        Position::End => stem + text@,
                    },
                    ext,
                ),
            ),
            RenameCommand::Trim { count, position } => {
                if count >= stem.len() {
                    Err(
                        EvaluationErrorView::TrimExceedsLength {
                            count: count as nat,
                            length: stem.len(),
                        },
                    )
                } else {
                    Ok(joined(trimmed(stem, count as nat, position), ext))
                }
            },
            RenameCommand::Extension { new_ext } => Ok(
                stem.push('.') + without_leading_dots(new_ext@),
            ),
            RenameCommand::Case { mode } => Ok(
                joined(
                    match mode {
                        CaseMode::Upper => uppercase_of(stem),
                        CaseMode::Lower => lowercase_of(stem),
                    },
                    ext,
                ),
            ),
            RenameCommand::Convert { mode } => Ok(
                joined(
                    match mode {
                        WidthMode::Zenkaku => full_width(stem),
                        WidthMode::Hankaku => half_width(stem),
                    },
                    ext,
                ),
            ),
        }
    }

    /// Applies the rule to the base name `name`. Nothing but the name is
    /// looked at, and nothing is changed.
    pub fn evaluate(&self, name: &str) -> (result: Result<String, EvaluationError>)
        ensures
            evaluated(result) == self.outcome(name@),
    {
        let parts = decompose(name);
        let stem = parts.stem.as_str();
        let ext = parts.extension.as_str();
        match self {
            RenameCommand::Fixed { name: fixed, keep_ext } => {
                if *keep_ext {
                    Ok(join_name_ext(fixed.as_str(), ext))
                } else {
                    Ok(fixed.clone())
                }
            },
            RenameCommand::Serial { prefix, suffix, number, pad, keep_ext, keep_original } => {
                let mut body = chars_of(prefix.as_str());
                if *keep_original {
                    push_all(&mut body, &chars_of(stem));
                }
                push_zero_padded(&mut body, *number as u64, *pad);
                push_all(&mut body, &chars_of(suffix.as_str()));
                let generated = string_of(&body);
                if *keep_ext {
                    Ok(join_name_ext(generated.as_str(), ext))
                } else {
                    Ok(generated)
                }
            },
            RenameCommand::Replace { from, to, use_regex } => {
                if *use_regex {
                    match replace_matches(from.as_str(), name, to.as_str()) {
                        Ok(replaced) => Ok(replaced),
                        Err(detail) => Err(EvaluationError::InvalidPattern { detail }),
                    }
                } else {
                    Ok(replace_literal(name, from.as_str(), to.as_str()))
                }
            },
            RenameCommand::Add { text, position } => {
                let new_stem = match position {
                    Position::Start => {
                        let mut s = text.clone();
                        s.append(stem);
                        s
                    },
                    Position::End => {
                        let mut s = stem.to_owned();
                        s.append(text.as_str());
                        s
                    },
                };
                Ok(join_name_ext(new_stem.as_str(), ext))
            },
            RenameCommand::Trim { count, position } => {
                let chars = chars_of(stem);
                let length = chars.len();
                if *count >= length {
                    return Err(EvaluationError::TrimExceedsLength { count: *count, length });
                }
                let kept = match position {
                    Position::Start => string_of_range(&chars, *count, length),
                    Position::End => string_of_range(&chars, 0, length - *count),
                };
                Ok(join_name_ext(kept.as_str(), ext))
            },
            RenameCommand::Extension { new_ext } => {
                let mut renamed = stem.to_owned();
                renamed.push('.');
                renamed.append(strip_leading_dots(new_ext.as_str()).as_str());
                Ok(renamed)
            },
            RenameCommand::Case { mode } => {
                let new_stem = match mode {
                    CaseMode::Upper => stem.to_uppercase(),
                    CaseMode::Lower => stem.to_lowercase(),
                };
                Ok(join_name_ext(new_stem.as_str(), ext))
            },
            RenameCommand::Convert { mode } => {
                let new_stem = match mode {
                    WidthMode::Zenkaku => to_zenkaku(stem),
                    WidthMode::Hankaku => to_hankaku(stem),
                };
                Ok(join_name_ext(new_stem.as_str(), ext))
            },
        }
    }
}

/// A `Trim` rule that asks for fewer characters than the stem has takes
/// exactly that many off the chosen end: what is left is that much shorter,
/// and the removed characters followed by the rest (or the rest followed by
/// the removed characters) are the old stem. The extension is put back.
pub proof fn lemma_trim_takes_count(count: usize, position: Position, name: Seq<char>)
    requires
        count < stem_of(name).len(),
    ensures
        ({
            let stem = stem_of(name);
            let kept = trimmed(stem, count as nat, position);
            &&& (RenameCommand::Trim { count, position }).outcome(name) == Ok::<
                Seq<char>,
                EvaluationErrorView,
            >(joined(kept, extension_of(name)))
            &&& kept.len() == stem.len() - count
            &&& position == Position::Start ==> stem.take(count as int) + kept == stem
            &&& position == Position::End ==> kept + stem.skip(stem.len() - count) == stem
        }),
{
    let stem = stem_of(name);
    assert(stem.take(count as int) + stem.skip(count as int) =~= stem);
    assert(stem.take(stem.len() - count) + stem.skip(stem.len() - count) =~= stem);
}

/// A `Trim` rule that asks for as many characters as the stem has, or more,
/// is refused, whatever the end.
pub proof fn lemma_trim_refuses_whole_stem(count: usize, position: Position, name: Seq<char>)
    requires
        count >= stem_of(name).len(),
    ensures
        (RenameCommand::Trim { count, position }).outcome(name) == Err::<
            Seq<char>,
            EvaluationErrorView,
        >(
            EvaluationErrorView::TrimExceedsLength {
                count: count as nat,
                length: stem_of(name).len(),
            },
        ),
{
}

/// A rule that keeps the extension gives a name that ends in a dot and the
/// old extension, character for character. Unless nothing stands before that
/// dot, splitting the new name finds the old extension again.
pub proof fn lemma_extension_preserved(command: RenameCommand, name: Seq<char>)
    requires
        command.keeps_extension(),
        extension_of(name).len() > 0,
        command.outcome(name) is Ok,
    ensures
        ({
            let ext = extension_of(name);
            let renamed = command.outcome(name)->Ok_0;
            &&& renamed.len() > ext.len()
            &&& renamed.skip(renamed.len() - ext.len() - 1) == seq!['.'] + ext
            &&& renamed.len() > ext.len() + 1 ==> extension_of(renamed) == ext
        }),
{
    let ext = extension_of(name);
    let renamed = command.outcome(name)->Ok_0;
    let new_stem = renamed.take(renamed.len() - ext.len() - 1);
    assert(renamed == joined(new_stem, ext)) by {
        lemma_joined_take(command, name);
    }
    assert(renamed.skip(renamed.len() - ext.len() - 1) =~= seq!['.'] + ext);
    if new_stem.len() > 0 {
        lemma_extension_shape(name);
        lemma_parts_of_join(new_stem, ext);
    }
}

/// Converting a name to full width and the result back to half width gives
/// the name again, provided its stem is made of spaces and visible ASCII
/// characters and the name does not end in its separating dot.
pub proof fn lemma_convert_round_trip(name: Seq<char>)
    requires
        forall|i: int| 0 <= i < stem_of(name).len() ==> has_full_width_form(stem_of(name)[i]),
        joined(stem_of(name), extension_of(name)) == name,
    ensures
        ({
            let widened = (RenameCommand::Convert { mode: WidthMode::Zenkaku }).outcome(name);
            &&& widened is Ok
            &&& (RenameCommand::Convert { mode: WidthMode::Hankaku }).outcome(widened->Ok_0) == Ok::<
                Seq<char>,
                EvaluationErrorView,
            >(name)
        }),
{
    let stem = stem_of(name);
    let ext = extension_of(name);
    let wide_stem = full_width(stem);
    let wide = joined(wide_stem, ext);
    lemma_half_of_full(stem);
    if ext.len() > 0 {
        lemma_extension_shape(name);
        lemma_parts_of_join(wide_stem, ext);
    } else {
        lemma_last_dot(wide);
        if last_dot(wide) >= 0 {
            assert(wide[last_dot(wide)] == full_width_char(stem[last_dot(wide)]));
        }
        assert(!has_separator(wide));
    }
}

/// The name that a rule which keeps the extension gives is some stem joined
/// with the old extension.
proof fn lemma_joined_take(command: RenameCommand, name: Seq<char>)
    requires
        command.keeps_extension(),
        extension_of(name).len() > 0,
        command.outcome(name) is Ok,
    ensures
        ({
            let ext = extension_of(name);
            let renamed = command.outcome(name)->Ok_0;
            &&& renamed.len() > ext.len()
            &&& renamed == joined(renamed.take(renamed.len() - ext.len() - 1), ext)
        }),
{
    let ext = extension_of(name);
    let stem = stem_of(name);
    let renamed = command.outcome(name)->Ok_0;
    let new_stem: Seq<char> = match command {
        RenameCommand::Fixed { name: fixed, .. } => fixed@,
        RenameCommand::Serial { prefix, suffix, number, pad, keep_original, .. } => serial_body(
            prefix@,
            suffix@,
            number as nat,
            pad as nat,
            if keep_original {
                Some(stem)
            } else {
                None
            },
        ),
        RenameCommand::Add { text, position } => match position {
            Position::Start => text@ + stem,
            Position::End => stem + text@,
        },
        RenameCommand::Trim { count, position } => trimmed(stem, count as nat, position),
        RenameCommand::Case { mode } => match mode {
            CaseMode::Upper => uppercase_of(stem),
            CaseMode::Lower => lowercase_of(stem),
        },
        RenameCommand::Convert { mode } => match mode {
            WidthMode::Zenkaku => full_width(stem),
            WidthMode::Hankaku => half_width(stem),
        },
        _ => Seq::empty(),
    };
    assert(renamed == joined(new_stem, ext));
    assert(renamed.take(renamed.len() - ext.len() - 1) =~= new_stem);
}

} // verus!
