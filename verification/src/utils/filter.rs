//! The filter that picks entries by their names: a regular expression.

use vstd::prelude::*;
use vstd::string::StringExecFns;

verus! {

/// `regex::Regex`: a compiled regular expression.
#[verifier::external_type_specification]
#[verifier::external_body]
pub struct ExRegex(regex::Regex);

/// `regex::Error`: why a pattern could not be compiled.
#[verifier::external_type_specification]
#[verifier::external_body]
pub struct ExRegexError(regex::Error);

/// The message of a `regex::Error`, as its `Display` writes it.
#[verifier::external_body]
fn error_message(error: &regex::Error) -> (message: String) {
    format!("{}", error)
}

/// A pattern that is no regular expression, with the reason.
#[derive(Clone, Debug, PartialEq, Eq)]
pub struct FilterError {
    pub pattern: String,
    pub message: String,
}

/// A regular expression, compiled and ready to be matched against names.
/// It holds its pattern and the expression that `Regex::new` compiled from
/// that pattern: `compile` alone makes one.
pub struct Filter {
    pattern: String,
    regex: regex::Regex,
}

/// Whether `Regex::new` compiles the pattern: it is a regular expression,
/// and not too large a one.
pub uninterp spec fn pattern_compiles(pattern: Seq<char>) -> bool;

/// Whether the regular expression of `pattern` matches somewhere in `text`.
pub uninterp spec fn pattern_matches(pattern: Seq<char>, text: Seq<char>) -> bool;

/// `Regex::new` compiles a pattern, or says why it cannot. Whether it can
/// depends on the pattern alone. The filter that comes back holds the
/// pattern beside the expression compiled from it.
#[verifier::external_body]
fn compile(pattern: &str) -> (result: Result<Filter, regex::Error>)
    ensures
        result is Ok == pattern_compiles(pattern@),
        result matches Ok(filter) ==> filter.pattern@ == pattern@,
{
    regex::Regex::new(pattern).map(|regex| Filter { pattern: pattern.to_string(), regex })
}

/// `Regex::is_match` tells whether the expression matches somewhere in the
/// text. The expression of a filter is the one that `compile` put beside
/// its pattern, so the answer is that of the pattern on the text.
#[verifier::external_body]
fn matches(filter: &Filter, text: &str) -> (found: bool)
    ensures
        found == pattern_matches(filter.pattern@, text@),
{
    filter.regex.is_match(text)
}

impl Filter {
    /// The pattern that the filter was made of.
    pub closed spec fn pattern(self) -> Seq<char> {
        self.pattern@
    }

    /// The filter of a pattern that compiles, or the reason why the
    /// pattern does not.
    pub fn new(pattern: &str) -> (result: Result<Filter, FilterError>)
        ensures
            result is Ok <==> pattern_compiles(pattern@),
            result matches Ok(filter) ==> filter.pattern() == pattern@,
            result matches Err(error) ==> error.pattern@ == pattern@,
    {
        match compile(pattern) {
            Ok(filter) => Ok(filter),
            Err(error) => Err(
                FilterError { pattern: String::from_str(pattern), message: error_message(&error) },
            ),
        }
    }

    /// Whether the filter matches somewhere in the name.
    pub fn is_match(&self, name: &str) -> (found: bool)
        ensures
            found == pattern_matches(self.pattern(), name@),
    {
        matches(self, name)
    }

    /// The pattern that the filter was made of.
    pub fn as_str(&self) -> (pattern: &str)
        ensures
            pattern@ == self.pattern(),
    {
        self.pattern.as_str()
    }
}

} // verus!
