use crate::schema::StringMatch;
use vstd::prelude::*;

verus! {

#[verifier::external_type_specification]
#[verifier::external_body]
pub struct ExRegex(regex::Regex);

#[verifier::external_type_specification]
#[verifier::external_body]
pub struct ExRegexError(regex::Error);

/// Whether `regex::Regex::new` accepts `pattern` (with the crate's default
/// syntax and size limits).
pub uninterp spec fn regex_compiles(pattern: Seq<char>) -> bool;

/// Whether the regular expression compiled from `pattern` matches somewhere
/// in `haystack`, as `regex::Regex::is_match` decides it.
pub uninterp spec fn regex_finds(pattern: Seq<char>, haystack: Seq<char>) -> bool;

/// A compiled regular expression together with the text it was compiled
/// from. Only `compile_pattern` builds one.
pub struct CompiledPattern<'a> {
    regex: regex::Regex,
    source: &'a str,
}

impl<'a> CompiledPattern<'a> {
    /// The pattern text this expression was compiled from.
    pub closed spec fn source(&self) -> Seq<char> {
        self.source@
    }
}

/// Calls `regex::Regex::new`. The contract claims that compilation succeeds
/// exactly when the pattern is one the crate accepts, a property of the
/// pattern text alone, and that a success carries that same text.
#[verifier::external_body]
fn compile_pattern<'a>(pattern: &'a str) -> (res: Result<CompiledPattern<'a>, regex::Error>)
    ensures
        res is Ok <==> regex_compiles(pattern@),
        res matches Ok(c) ==> c.source() == pattern@,
{
    match regex::Regex::new(pattern) {
        Ok(regex) => Ok(CompiledPattern { regex, source: pattern }),
        Err(e) => Err(e),
    }
}

impl<'a> CompiledPattern<'a> {
    /// Calls `regex::Regex::is_match`. The contract claims that the answer
    /// depends only on the compiled pattern's text and the haystack.
    #[verifier::external_body]
    fn is_match(&self, haystack: &str) -> (res: bool)
        ensures
            res == regex_finds(self.source(), haystack@),
    {
        self.regex.is_match(haystack)
    }
}

/// Calls `<str as PartialEq>::eq`; the contract claims that two string
/// slices compare equal exactly when they hold the same characters.
#[verifier::external_body]
pub(crate) fn str_eq(a: &str, b: &str) -> (res: bool)
    ensures
        res == (a@ == b@),
{
    a == b
}

/// What a `StringMatch` says of `s`: an exact pattern matches only the very
/// same characters; a regular expression matches when it compiles and finds
/// a match in `s`. An invalid expression matches nothing.
pub open spec fn string_match_spec(m: StringMatch, s: Seq<char>) -> bool {
    match m {
        StringMatch::Exact(pattern) => pattern@ == s,
        StringMatch::Regex { regex } => regex_compiles(regex@) && regex_finds(regex@, s),
    }
}

/// The verdict of a regular-expression match, given what the regex crate
/// answered: `None` when the pattern did not compile, otherwise whether the
/// compiled expression matched. A pattern that does not compile never
/// matches.
pub fn regex_verdict(outcome: Option<bool>) -> (res: bool)
    ensures
        res == (outcome == Some(true)),
{
    match outcome {
        Some(found) => found,
        None => false,
    }
}

impl StringMatch {
    /// Whether `s` matches. An invalid regex pattern never matches (rather
    /// than panicking).
    pub fn matches(&self, s: &str) -> (res: bool)
        ensures
            res == string_match_spec(*self, s@),
    {
        match self {
            StringMatch::Exact(pattern) => str_eq(s, pattern.as_str()),
            StringMatch::Regex { regex: pattern } => {
                let outcome = match compile_pattern(pattern.as_str()) {
                    Ok(re) => Some(re.is_match(s)),
                    Err(_) => None,
                };
                regex_verdict(outcome)
            },
        }
    }
}

} // verus!
