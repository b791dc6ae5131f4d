use vstd::prelude::*;
use regex::Regex;

verus! {

/// What `regex` reports when it turns a pattern down.
#[verifier::external_type_specification]
#[verifier::external_body]
pub struct ExRegexError(regex::Error);

/// Whether `Regex::new` accepts `pattern`.
pub uninterp spec fn regex_compiles(pattern: Seq<char>) -> bool;

/// Whether the regular expression compiled from `pattern` matches somewhere
/// in `haystack`, as `Regex::is_match` tells.
pub uninterp spec fn regex_matches(pattern: Seq<char>, haystack: Seq<char>) -> bool;

/// Compiles `pattern` with `Regex::new` and searches `haystack` with
/// `Regex::is_match`. The compiler's verdict and the search's answer depend on
/// the two texts alone; what they are is left to `regex`.
#[verifier::external_body]
pub(crate) fn search(pattern: &str, haystack: &str) -> (found: Result<bool, regex::Error>)
    ensures
        found is Ok <==> regex_compiles(pattern@),
        found matches Ok(hit) ==> hit == regex_matches(pattern@, haystack@),
{
    match Regex::new(pattern) {
        Ok(regex) => Ok(regex.is_match(haystack)),
        Err(error) => Err(error),
    }
}

/// A pattern that is no regular expression.
#[derive(Debug)]
pub struct PatternError {
    /// The text that was turned down.
    pub pattern: String,
}

/// Whether `pattern` is a regular expression that matches somewhere in
/// `haystack`. A text that is no regular expression matches nothing.
pub open spec fn spec_is_match(pattern: Seq<char>, haystack: Seq<char>) -> bool {
    regex_compiles(pattern) && regex_matches(pattern, haystack)
}

/// What `is_match` answers once the search has come back.
pub open spec fn spec_hit(found: Result<bool, regex::Error>) -> bool {
    match found {
        Ok(hit) => hit,
        Err(_) => false,
    }
}

/// Reads the outcome of a search: a match only where the pattern compiled
/// and was found.
pub fn hit(found: Result<bool, regex::Error>) -> (matched: bool)
    ensures
        matched == spec_hit(found),
{
    match found {
        Ok(hit) => hit,
        Err(_) => false,
    }
}

/// Tells whether `pattern` matches somewhere in `haystack`.
pub fn is_match(pattern: &str, haystack: &str) -> (matched: bool)
    ensures
        matched == spec_is_match(pattern@, haystack@),
{
    hit(search(pattern, haystack))
}

/// Accepts `pattern` if it is a regular expression, and hands it back in the
/// error if it is not.
pub fn validate(pattern: &str) -> (checked: Result<(), PatternError>)
    ensures
        checked is Ok <==> regex_compiles(pattern@),
        checked matches Err(error) ==> error.pattern@ == pattern@,
{
    match search(pattern, "") {
        Ok(_) => Ok(()),
        Err(_) => Err(PatternError { pattern: String::from_str(pattern) }),
    }
}

} // verus!
