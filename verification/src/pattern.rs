//! Regular expressions, matched by the `regex` crate.

use vstd::prelude::*;

verus! {

/// The one regular expression that the library matches: a name of
/// letters, a colon, spaces, and a number of kilobytes, which is the first
/// capture group.
pub open spec fn kilobytes_pattern() -> Seq<char> {
    "[a-zA-Z]*:[ ]*([0-9]*) kB"@
}

/// What capture group `group` holds in the leftmost match of the regular
/// expression `pattern` in `text`, as the `regex` crate finds it: `None`
/// where nothing in `text` matches, and where the group has no part in the
/// match.
pub uninterp spec fn regex_capture(pattern: Seq<char>, text: Seq<char>, group: usize) -> Option<
    Seq<char>,
>;

/// Calls `regex::Regex::new` on `pattern`, `Regex::captures` on `text`,
/// `Captures::get` with `group`, and `Match::as_str` on what is found.
///
/// Trusted: the outcome depends on the text and the number alone. This is
/// claimed of the one pattern that the library matches and of no other: it
/// is a regular expression wherever the crate is built, far below the
/// limit on the size of a compiled one.
#[verifier::external_body]
pub(crate) fn capture(pattern: &str, text: &Vec<char>, group: usize) -> (found: Option<Vec<char>>)
    requires
        pattern@ == kilobytes_pattern(),
    ensures
        match found {
            Some(part) => regex_capture(pattern@, text@, group) == Some(part@),
            None => regex_capture(pattern@, text@, group) is None,
        },
{
    let haystack: String = text.iter().collect();
    match regex::Regex::new(pattern) {
        Ok(regex) => match regex.captures(&haystack) {
            Some(captures) => match captures.get(group) {
                Some(part) => Some(part.as_str().chars().collect()),
                None => None,
            },
            None => None,
        },
        Err(_) => None,
    }
}

} // verus!
