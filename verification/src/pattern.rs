//! Regular expressions, as the `grep` crate compiles and runs them.

use grep::matcher::Matcher;
use grep::matcher::NoError;
use grep::regex::RegexMatcher;
use vstd::prelude::*;

verus! {

/// A compiled regular expression of `grep`; nothing of its inside is known
/// here.
#[verifier::external_type_specification]
#[verifier::external_body]
pub struct ExRegexMatcher(RegexMatcher);

/// Why `grep` refused a pattern.
#[verifier::external_type_specification]
#[verifier::external_body]
pub struct ExRegexError(grep::regex::Error);

/// The error type of matchers that never fail.
#[verifier::external_type_specification]
#[verifier::external_body]
pub struct ExNoError(NoError);

/// Whether `RegexMatcher::new` accepts the pattern.
pub uninterp spec fn pattern_compiles(pattern: Seq<char>) -> bool;

/// The pattern that a matcher was compiled from.
pub uninterp spec fn pattern_of(matcher: RegexMatcher) -> Seq<char>;

/// Whether a matcher compiled from the pattern finds a match anywhere in the
/// text.
pub uninterp spec fn pattern_matches(pattern: Seq<char>, text: Seq<char>) -> bool;

/// Whether a query is usable as a filter: the empty query always is, any
/// other if it is a regular expression.
pub open spec fn query_is_valid(query: Seq<char>) -> bool {
    query.len() == 0 || pattern_compiles(query)
}

/// Whether a query selects a text: the empty query selects every text, any
/// other the texts that it matches somewhere.
pub open spec fn query_selects(query: Seq<char>, text: Seq<char>) -> bool {
    query.len() == 0 || pattern_matches(query, text)
}

/// Calls `RegexMatcher::new`. Trusted: whether the call succeeds is a function
/// of the pattern, which `pattern_compiles` names, and the matcher it returns
/// is the one of the pattern given.
#[verifier::external_body]
pub(crate) fn compile(pattern: &str) -> (compiled: Result<RegexMatcher, grep::regex::Error>)
    ensures
        compiled is Ok == pattern_compiles(pattern@),
        compiled matches Ok(matcher) ==> pattern_of(matcher) == pattern@,
{
    RegexMatcher::new(pattern)
}

/// Calls `Matcher::is_match` on the bytes of `text`. Trusted: a `RegexMatcher`
/// never fails here, and whether it finds a match is a function of its
/// pattern and the text, which `pattern_matches` names.
#[verifier::external_body]
pub(crate) fn is_match(matcher: &RegexMatcher, text: &str) -> (found: Result<bool, NoError>)
    ensures
        found is Ok,
        found matches Ok(b) ==> b == pattern_matches(pattern_of(*matcher), text@),
{
    matcher.is_match(text.as_bytes())
}

} // verus!
