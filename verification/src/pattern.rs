//! Matching a text against a regular expression.
use vstd::prelude::*;

verus! {

/// What the `regex` crate answers for a pattern and a text: `None` where the
/// pattern does not compile, else whether the pattern matches somewhere in
/// the text.
pub uninterp spec fn regex_match(pattern: Seq<char>, text: Seq<char>) -> Option<bool>;

/// Compiles the pattern with `regex::Regex::new` and asks `Regex::is_match`
/// of the text. The contract only names the answer; a pattern that the crate
/// rejects gives `None`.
#[verifier::external_body]
pub(crate) fn search(pattern: &str, text: &str) -> (answer: Option<bool>)
    ensures
        answer == regex_match(pattern@, text@),
{
    match regex::Regex::new(pattern) {
        Ok(compiled) => Some(compiled.is_match(text)),
        Err(_) => None,
    }
}

} // verus!
