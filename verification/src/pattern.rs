//! The compiled match predicate over import source strings.
//!
//! A `Pattern` wraps a compiled regular expression of the `regex` crate. What
//! compilation accepts and what a compiled expression matches are named by
//! uninterpreted spec functions: both are functions of the pattern text (and
//! the tested text) alone, and every contract of this crate speaks of matching
//! through those names.

use crate::errors::ConfigError;
use vstd::prelude::*;

verus! {

#[verifier::external_type_specification]
#[verifier::external_body]
pub struct ExRegex(regex::Regex);

#[verifier::external_type_specification]
#[verifier::external_body]
pub struct ExRegexError(regex::Error);

/// Whether `pattern` is a syntactically valid regular expression, that is,
/// whether `regex::Regex::new` accepts it.
pub uninterp spec fn regex_valid(pattern: Seq<char>) -> bool;

/// The pattern text a compiled regular expression was built from (the `regex`
/// crate keeps it verbatim and hands it back through `Regex::as_str`).
pub uninterp spec fn regex_pattern(re: regex::Regex) -> Seq<char>;

/// Whether the regular expression compiled from `pattern` matches anywhere in
/// `text`. In particular an empty `pattern` matches every `text`; no clause of
/// this crate says so, and none special-cases it away.
pub uninterp spec fn regex_match(pattern: Seq<char>, text: Seq<char>) -> bool;

/// Relies on `regex::Regex::new`: compilation is a function of the pattern
/// text alone, succeeds on exactly the syntactically valid patterns, and the
/// compiled value keeps the text it was built from.
#[verifier::external_body]
fn regex_new(pattern: &str) -> (r: Result<regex::Regex, regex::Error>)
    ensures
        r is Ok <==> regex_valid(pattern@),
        r is Ok ==> regex_pattern(r.unwrap()) == pattern@,
{
    regex::Regex::new(pattern)
}

/// Relies on `regex::Regex::is_match`: whether a compiled expression matches
/// anywhere in `text` is a function of its pattern text and `text` alone.
#[verifier::external_body]
fn regex_is_match(re: &regex::Regex, text: &str) -> (r: bool)
    ensures
        r == regex_match(regex_pattern(*re), text@),
{
    re.is_match(text)
}

/// A compiled string-matching predicate, derived once per invocation from the
/// configuration and immutable for the lifetime of one pass.
#[derive(Debug)]
pub struct Pattern {
    regex: regex::Regex,
}

impl Pattern {
    /// The pattern text this predicate was compiled from.
    pub closed spec fn src(self) -> Seq<char> {
        regex_pattern(self.regex)
    }

    /// Compile `pattern` into a predicate. Fails, with the one error kind
    /// reserved for it, on exactly the texts that are not valid regular
    /// expressions.
    pub fn compile(pattern: &str) -> (r: Result<Pattern, ConfigError>)
        ensures
            r is Ok <==> regex_valid(pattern@),
            r is Ok ==> r->Ok_0.src() == pattern@,
            r is Err ==> r->Err_0 == ConfigError::InvalidPattern,
    {
        match regex_new(pattern) {
            Ok(regex) => Ok(Pattern { regex }),
            Err(_) => Err(ConfigError::InvalidPattern),
        }
    }

    /// Test whether this predicate matches anywhere in `text`. Matching is
    /// against the raw text exactly as given: no normalization, no trimming,
    /// no case folding.
    pub fn matches(&self, text: &str) -> (r: bool)
        ensures
            r == regex_match(self.src(), text@),
    {
        regex_is_match(&self.regex, text)
    }
}

} // verus!
