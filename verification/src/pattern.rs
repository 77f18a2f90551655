//! Matching a text against a regular expression, by the `regex` crate.

use vstd::prelude::*;

verus! {

/// What matching `text` against the regular expression `pattern` gives:
/// `Err` with the message when `pattern` does not compile, `Ok(None)` when
/// the text does not match, else the capture groups of the leftmost match in
/// the order of their opening parentheses, the whole match first. A group
/// that took no part in the match is `None`.
pub uninterp spec fn regex_captures(pattern: Seq<char>, text: Seq<char>) -> Result<
    Option<Seq<Option<Seq<char>>>>,
    Seq<char>,
>;

/// The texts of a match as sequences of characters.
pub open spec fn captures_view(r: Result<Option<Vec<Option<String>>>, String>) -> Result<
    Option<Seq<Option<Seq<char>>>>,
    Seq<char>,
> {
    match r {
        Ok(Some(groups)) => Ok(Some(groups.deep_view())),
        Ok(None) => Ok(None),
        Err(message) => Err(message@),
    }
}

/// Compiles `pattern` with `regex::Regex::new` and searches `text` with
/// `Regex::captures`, handing out each group's text. Trusted: the result is
/// taken to depend on the pattern and the text alone, and nothing is claimed
/// of what it holds.
#[verifier::external_body]
pub(crate) fn capture_groups(pattern: &str, text: &str) -> (r: Result<
    Option<Vec<Option<String>>>,
    String,
>)
    ensures
        captures_view(r) == regex_captures(pattern@, text@),
{
    let re = match regex::Regex::new(pattern) {
        Ok(re) => re,
        Err(e) => return Err(e.to_string()),
    };
    let caps = match re.captures(text) {
        Some(caps) => caps,
        None => return Ok(None),
    };
    let mut groups = Vec::new();
    for group in caps.iter() {
        groups.push(group.map(|m| m.as_str().to_string()));
    }
    Ok(Some(groups))
}

} // verus!
