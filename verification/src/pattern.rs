//! Regular-expression matching, delegated to the `regex` crate.
//!
//! What a pattern captures in a text is decided by that crate alone. The
//! library names the outcome and reasons about what it does with it.

use vstd::prelude::*;

verus! {

/// The capture groups of the leftmost match of `pattern` in `haystack`, as
/// `regex::Regex::captures` reports them: group 0 is the whole match, and a
/// group that took no part in the match is `None`. The whole is `None` where
/// the pattern does not compile or matches nowhere.
pub uninterp spec fn captures_of(pattern: Seq<char>, haystack: Seq<char>) -> Option<
    Seq<Option<Seq<char>>>,
>;

/// The capture groups of every non-overlapping match of `pattern` in
/// `haystack`, in order, as `regex::Regex::captures_iter` yields them. Empty
/// where the pattern does not compile.
pub uninterp spec fn all_captures_of(pattern: Seq<char>, haystack: Seq<char>) -> Seq<
    Seq<Option<Seq<char>>>,
>;

/// Compiles the pattern with `regex::Regex::new` and calls
/// `regex::Regex::captures` on the text, copying each group's text. The
/// result is named, not described.
#[verifier::external_body]
pub(crate) fn captures(pattern: &str, haystack: &str) -> (r: Option<Vec<Option<String>>>)
    ensures
        r.deep_view() == captures_of(pattern@, haystack@),
{
    let re = regex::Regex::new(pattern).ok()?;
    let caps = re.captures(haystack)?;
    Some(caps.iter().map(|m| m.map(|m| m.as_str().to_string())).collect())
}

/// Compiles the pattern with `regex::Regex::new` and calls
/// `regex::Regex::captures_iter` on the text, copying each group's text of
/// each match. The result is named, not described.
#[verifier::external_body]
pub(crate) fn captures_all(pattern: &str, haystack: &str) -> (r: Vec<Vec<Option<String>>>)
    ensures
        r.deep_view() == all_captures_of(pattern@, haystack@),
{
    match regex::Regex::new(pattern) {
        Ok(re) => re.captures_iter(haystack).map(
            |c| c.iter().map(|m| m.map(|m| m.as_str().to_string())).collect(),
        ).collect(),
        Err(_) => Vec::new(),
    }
}

/// The text of group `index` among `groups`, if that group exists and took
/// part in the match.
pub open spec fn group_text(groups: Seq<Option<Seq<char>>>, index: int) -> Option<Seq<char>> {
    if 0 <= index < groups.len() {
        groups[index]
    } else {
        None
    }
}

/// Copies the text of group `index`, if that group exists and took part in
/// the match.
pub fn group(groups: &Vec<Option<String>>, index: usize) -> (r: Option<String>)
    ensures
        r.deep_view() == group_text(groups.deep_view(), index as int),
{
    if index < groups.len() {
        match &groups[index] {
            Some(s) => Some(s.clone()),
            None => None,
        }
    } else {
        None
    }
}

} // verus!
