//! Matching text against regular expressions.

use vstd::prelude::*;

verus! {

/// What matching `text` against the regular expression `pattern` gives:
/// `None` where `pattern` is no valid expression, else whether the
/// expression matches somewhere in `text`.
pub uninterp spec fn regex_match(pattern: Seq<char>, text: Seq<char>) -> Option<bool>;

/// Whether `pattern` is a valid expression that matches `text`.
pub open spec fn matches_pattern(pattern: Seq<char>, text: Seq<char>) -> bool {
    regex_match(pattern, text) == Some(true)
}

/// `regex::Regex::new` followed by `Regex::is_match`: compiles `pattern` with
/// the crate's default settings and searches `text` for a match. Both steps
/// depend on the two texts alone, so the outcome is named by [`regex_match`].
/// A pattern that does not compile gives `None`; that includes a pattern
/// whose compiled form is over the crate's default size limit, which only
/// patterns far larger than any of this library's come near.
#[verifier::external_body]
pub(crate) fn search(pattern: &str, text: &str) -> (r: Option<bool>)
    ensures
        r == regex_match(pattern@, text@),
{
    match regex::Regex::new(pattern) {
        Ok(expression) => Some(expression.is_match(text)),
        Err(_) => None,
    }
}

/// Whether `outcome` reports a match.
pub fn is_hit(outcome: Option<bool>) -> (r: bool)
    ensures
        r == (outcome == Some(true)),
{
    match outcome {
        Some(hit) => hit,
        None => false,
    }
}

/// Whether `pattern` is a valid regular expression that matches `text`.
pub fn is_match(pattern: &str, text: &str) -> (r: bool)
    ensures
        r == matches_pattern(pattern@, text@),
{
    is_hit(search(pattern, text))
}

} // verus!
