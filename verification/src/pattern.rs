//! Searching and replacing by pattern, done by the `regex` crate.
//!
//! Nothing here is proved of `regex`: each result is given a name, and the
//! functions that use a result take it as an argument.

use crate::json::option_view;
use vstd::prelude::*;

verus! {

/// Name for what group `group` captures in the leftmost match of a pattern
/// in a text. `None` where the pattern is not one, where nothing matches, or
/// where the group took no part in the match.
pub uninterp spec fn first_capture(pattern: Seq<char>, text: Seq<char>, group: nat) -> Option<
    Seq<char>,
>;

/// Name for a text in which every match of a pattern has given way to a
/// replacement. `None` where the pattern is not one.
pub uninterp spec fn replaced_all(
    pattern: Seq<char>,
    text: Seq<char>,
    replacement: Seq<char>,
) -> Option<Seq<char>>;

/// Compiles the pattern with `regex::Regex::new`, searches with `captures`
/// and copies what `get(group)` holds. The result depends on the arguments
/// alone.
#[verifier::external_body]
pub(crate) fn capture_first(pattern: &str, text: &str, group: usize) -> (r: Option<String>)
    ensures
        option_view(r) == first_capture(pattern@, text@, group as nat),
{
    let regex = regex::Regex::new(pattern).ok()?;
    regex.captures(text)?.get(group).map(|found| found.as_str().to_string())
}

/// Compiles the pattern with `regex::Regex::new` and calls `replace_all`.
/// The result depends on the arguments alone.
#[verifier::external_body]
pub(crate) fn replace_all(pattern: &str, text: &str, replacement: &str) -> (r: Option<String>)
    ensures
        option_view(r) == replaced_all(pattern@, text@, replacement@),
{
    let regex = regex::Regex::new(pattern).ok()?;
    Some(regex.replace_all(text, replacement).into_owned())
}

} // verus!
