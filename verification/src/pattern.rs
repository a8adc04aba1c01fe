//! Compiled text patterns of the `regex` crate.
//!
//! Compiling and matching are `regex`'s work. What this module states of
//! them is believed, not proved. Whether a text compiles depends on the
//! machine as well as on the text, so that gets no name here; what a
//! compiled pattern finds in a text depends on the two alone.

use regex::Error;
use regex::Regex;
use vstd::prelude::*;

verus! {

/// A compiled pattern, `regex::Regex`. In contracts it stands for the text
/// that it was compiled from.
#[verifier::external_type_specification]
#[verifier::external_body]
pub struct ExRegex(Regex);

/// The reason why a text is no pattern, `regex::Error`.
#[verifier::external_type_specification]
#[verifier::external_body]
pub struct ExError(Error);

/// The text that `Regex::new` compiled `pattern` from: what `Regex::as_str`
/// returns of it.
pub uninterp spec fn pattern_text(pattern: Regex) -> Seq<char>;

/// The text of the capture group named `group` in the leftmost match of
/// `pattern` in `haystack`, as `Regex::captures` and `Captures::name` find
/// it; `None` where `pattern` matches nowhere in `haystack`, has no group of
/// that name, or matched without it.
pub uninterp spec fn captured_group(
    pattern: Regex,
    haystack: Seq<char>,
    group: Seq<char>,
) -> Option<Seq<char>>;

/// `Regex::new` keeps the text of the pattern that it returns. When it
/// succeeds is not stated: it refuses a text that is no pattern, and also
/// one whose program passes a size limit, which it counts in the sizes of
/// the machine's types.
pub assume_specification[ Regex::new ](re: &str) -> (outcome: Result<Regex, Error>)
    ensures
        outcome matches Ok(pattern) ==> pattern_text(pattern) == re@,
;

/// Calls `Regex::captures` on `haystack`, then `Captures::name` and
/// `Match::as_str`: the part of `haystack` that the group named `group`
/// matched.
#[verifier::external_body]
pub(crate) fn capture_group<'h>(pattern: &Regex, haystack: &'h str, group: &str) -> (found: Option<
    &'h str,
>)
    ensures
        match found {
            Some(text) => captured_group(*pattern, haystack@, group@) == Some(text@),
            None => captured_group(*pattern, haystack@, group@) is None,
        },
{
    pattern.captures(haystack).and_then(|groups| groups.name(group)).map(|part| part.as_str())
}

} // verus!
