//! Regular expressions as the `regex` crate compiles and matches them.
//! What a pattern means is not spelled out here: it is named, and the
//! contracts of the library speak of it under that name.

use vstd::prelude::*;

verus! {

/// `regex::Regex`, taken as opaque: all that is told of a compiled
/// expression is the pattern it was made from.
#[verifier::external_type_specification]
#[verifier::external_body]
pub struct ExRegex(regex::Regex);

/// `regex::Error`, taken as opaque: nothing is read from it.
#[verifier::external_type_specification]
#[verifier::external_body]
pub struct ExRegexError(regex::Error);

/// Whether `Regex::new` accepts `pattern`.
pub uninterp spec fn pattern_compiles(pattern: Seq<char>) -> bool;

/// The pattern that a compiled `Regex` was made from (what `Regex::as_str`
/// hands back). The name is meant for an expression that `Regex::new`
/// compiled, with the options that it has by default: one made by a builder
/// with other options may bear the same pattern and match otherwise. The
/// library makes its expressions in `compile_pattern` alone and hands none
/// out, so the two functions below stay private to the crate.
pub uninterp spec fn pattern_text(regex: regex::Regex) -> Seq<char>;

/// Whether the regular expression `pattern` matches anywhere in `text`.
pub uninterp spec fn pattern_occurs(pattern: Seq<char>, text: Seq<char>) -> bool;

/// Calls `Regex::new`. Whether it succeeds depends on the pattern alone and
/// is named `pattern_compiles`; a compiled expression remembers its pattern.
#[verifier::external_body]
pub(crate) fn compile_pattern(pattern: &str) -> (compiled: Result<regex::Regex, regex::Error>)
    ensures
        match compiled {
            Ok(regex) => pattern_compiles(pattern@) && pattern_text(regex) == pattern@,
            Err(_) => !pattern_compiles(pattern@),
        },
{
    regex::Regex::new(pattern)
}

/// Calls `Regex::is_match` on an expression that `compile_pattern` made:
/// whether it matches anywhere in `text`, a function of the pattern and the
/// text alone.
#[verifier::external_body]
pub(crate) fn matches_anywhere(regex: &regex::Regex, text: &str) -> (found: bool)
    ensures
        found == pattern_occurs(pattern_text(*regex), text@),
{
    regex.is_match(text)
}

} // verus!
