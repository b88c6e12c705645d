//! Filename patterns: regular expressions, compiled once and matched against
//! the final segment of an object's location.

use vstd::prelude::*;
use regex::Regex;

verus! {

#[verifier::external_type_specification]
#[verifier::external_body]
pub struct ExRegex(regex::Regex);

/// Whether `regex::Regex::new` accepts the pattern.
pub uninterp spec fn regex_compiles(pattern: Seq<char>) -> bool;

/// The pattern text a compiled expression was built from, as
/// `regex::Regex::as_str` reports it.
pub uninterp spec fn regex_source(re: Regex) -> Seq<char>;

/// Whether the compiled expression matches somewhere in `text`, as
/// `regex::Regex::is_match` decides it.
pub uninterp spec fn regex_accepts(re: Regex, text: Seq<char>) -> bool;

/// Calls `regex::Regex::new` and drops the reason of a failure. Trusted: the
/// call succeeds exactly on the patterns named by `regex_compiles`, and the
/// compiled expression remembers the text it was given.
#[verifier::external_body]
pub(crate) fn compile(pattern: &str) -> (r: Option<Regex>)
    ensures
        r is Some <==> regex_compiles(pattern@),
        r is Some ==> regex_source(r->Some_0) == pattern@,
{
    Regex::new(pattern).ok()
}

/// Calls `regex::Regex::is_match`. Trusted: the answer depends on the
/// compiled expression and the text alone, and is named by `regex_accepts`.
#[verifier::external_body]
pub(crate) fn is_match(re: &Regex, text: &str) -> (b: bool)
    ensures
        b == regex_accepts(*re, text@),
{
    re.is_match(text)
}

/// Calls `Clone::clone` of `regex::Regex`. Trusted: the copy is the same
/// expression, with the same pattern text and the same matches.
#[verifier::external_body]
pub(crate) fn clone_regex(re: &Regex) -> (r: Regex)
    ensures
        r == *re,
{
    re.clone()
}

/// Copies an optional compiled expression.
pub fn clone_filter(filename_regex: &Option<Regex>) -> (r: Option<Regex>)
    ensures
        r == *filename_regex,
{
    match filename_regex {
        Some(re) => Some(clone_regex(re)),
        None => None,
    }
}

} // verus!
