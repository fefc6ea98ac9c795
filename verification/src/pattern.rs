//! The regular expressions that the rules are matched with.
//!
//! Patterns are compiled and matched by the `regex` crate, and messages are
//! put in lower case by the standard library. What this module states of
//! `Regex::new`, `Regex::is_match` and `str::to_lowercase` is relied on, not
//! proved; the rest of the library is proved from it.

use crate::error::PolicyError;
use regex::Regex;
use vstd::prelude::*;

verus! {

/// A compiled regular expression of the `regex` crate.
#[verifier::external_type_specification]
#[verifier::external_body]
pub struct ExRegex(regex::Regex);

/// The reason why the `regex` crate refused a pattern.
#[verifier::external_type_specification]
#[verifier::external_body]
pub struct ExRegexError(regex::Error);

/// Whether `Regex::new` accepts a pattern: it is a valid regular expression,
/// and its compiled form stays within the size limit that the crate sets by
/// default.
pub uninterp spec fn pattern_compiles(pattern: Seq<char>) -> bool;

/// Whether the regular expression compiled from a pattern by `Regex::new`
/// matches somewhere in a haystack, as `Regex::is_match` reports it.
pub uninterp spec fn pattern_matches(pattern: Seq<char>, haystack: Seq<char>) -> bool;

/// What `str::to_lowercase` returns for a text.
pub uninterp spec fn lowercased(text: Seq<char>) -> Seq<char>;

/// A regular expression that was compiled from a pattern, together with that
/// pattern. Its view is the pattern.
///
/// A value is made by compiling its pattern, and in no other way.
#[derive(Debug)]
pub struct CompiledPattern {
    source: String,
    regex: Regex,
}

impl View for CompiledPattern {
    type V = Seq<char>;

    closed spec fn view(&self) -> Seq<char> {
        self.source@
    }
}

/// Calls `Regex::new`, which compiles a pattern with the crate's default
/// settings. Whether it succeeds depends on the pattern alone. The compiled
/// expression is returned with a copy of the pattern it was made from.
#[verifier::external_body]
fn compile_regex(pattern: &str) -> (result: Result<CompiledPattern, regex::Error>)
    ensures
        result is Ok <==> pattern_compiles(pattern@),
        result matches Ok(compiled) ==> compiled@ == pattern@,
{
    match Regex::new(pattern) {
        Ok(regex) => Ok(CompiledPattern { source: pattern.to_owned(), regex }),
        Err(error) => Err(error),
    }
}

/// Calls `Regex::is_match`, which searches the whole haystack, without
/// anchoring, and reports whether the expression matches somewhere in it. The
/// answer depends on the pattern that the expression was compiled from and on
/// the haystack alone.
#[verifier::external_body]
pub(crate) fn regex_is_match(compiled: &CompiledPattern, haystack: &str) -> (found: bool)
    ensures
        found == pattern_matches(compiled@, haystack@),
{
    compiled.regex.is_match(haystack)
}

/// `str::to_lowercase` returns the lowercase equivalent of a text, as Unicode
/// defines it. The result depends on the text alone.
pub assume_specification[ str::to_lowercase ](text: &str) -> (lower: String)
    ensures
        lower@ == lowercased(text@),
;

impl CompiledPattern {
    /// Compiles a pattern. A pattern that is not a valid regular expression
    /// is refused.
    pub fn compile(pattern: &str) -> (result: Result<CompiledPattern, PolicyError>)
        ensures
            result is Ok <==> pattern_compiles(pattern@),
            result matches Ok(compiled) ==> compiled@ == pattern@,
            result matches Err(error) ==> error == PolicyError::InvalidPattern,
    {
        match compile_regex(pattern) {
            Ok(compiled) => Ok(compiled),
            Err(_) => Err(PolicyError::InvalidPattern),
        }
    }
}

/// The pattern of a compiled expression, if there is one.
pub open spec fn source_of(outcome: Result<CompiledPattern, PolicyError>) -> Option<Seq<char>> {
    match outcome {
        Ok(compiled) => Some(compiled@),
        Err(_) => None,
    }
}

} // verus!
