//! The regular-expression capability: matching and first-group
//! capture, consumed from the regex crate through trusted wrappers.

use vstd::prelude::*;

verus! {

/// Whether the regular expression `pat` matches somewhere in `text`: a
/// function of the two strings alone. A pattern that does not compile
/// matches nothing.
pub uninterp spec fn regex_match(pat: Seq<char>, text: Seq<char>) -> bool;

/// Relies on regex's `Regex::new` and `Regex::is_match`.
#[verifier::external_body]
pub(crate) fn regex_is_match(pat: &str, text: &str) -> (r: bool)
    ensures
        r == regex_match(pat@, text@),
{
    match regex::Regex::new(pat) {
        Ok(re) => re.is_match(text),
        Err(_) => false,
    }
}

/// What the first capture group of the first match of the regular
/// expression `pat` in `text` captures: a function of the two strings
/// alone. A pattern that does not compile captures nothing.
pub uninterp spec fn regex_captured(pat: Seq<char>, text: Seq<char>) -> Option<Seq<char>>;

/// Relies on regex's `Regex::new`, `Regex::captures`, `Captures::get` and
/// `Match::as_str`: the text of capture group 1 of the first match of
/// `pat` in `text`, if the pattern matches at all.
#[verifier::external_body]
pub(crate) fn regex_capture_first(pat: &str, text: &str) -> (r: Option<String>)
    ensures
        r.deep_view() == regex_captured(pat@, text@),
{
    match regex::Regex::new(pat) {
        Ok(re) => re
            .captures(text)
            .and_then(|caps| caps.get(1))
            .map(|m| m.as_str().to_string()),
        Err(_) => None,
    }
}

} // verus!
