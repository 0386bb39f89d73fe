use vstd::prelude::*;
use regex::Regex;
use crate::error::TrampError;

verus! {

#[verifier::external_type_specification]
#[verifier::external_body]
pub struct ExRegex(regex::Regex);

#[verifier::external_type_specification]
#[verifier::external_body]
pub struct ExRegexError(regex::Error);

/// Whether the regex engine accepts `pattern`.
pub uninterp spec fn regex_accepts(pattern: Seq<char>) -> bool;

/// Whether `pattern` matches somewhere in `haystack`.
pub uninterp spec fn regex_finds(pattern: Seq<char>, haystack: Seq<char>) -> bool;

/// `haystack` with the first match of `pattern` replaced by the expansion
/// of `replacement`.
pub uninterp spec fn regex_replace_first(
    pattern: Seq<char>,
    replacement: Seq<char>,
    haystack: Seq<char>,
) -> Seq<char>;

/// `haystack` with every non-overlapping match of `pattern` replaced by the
/// expansion of `replacement`.
pub uninterp spec fn regex_replace_every(
    pattern: Seq<char>,
    replacement: Seq<char>,
    haystack: Seq<char>,
) -> Seq<char>;

/// A compiled regular expression together with the text it was compiled
/// from. The fields are private and `compile` is the only constructor, so
/// `regex` is always the compilation of `source`.
#[derive(Debug)]
pub struct Pattern {
    source: String,
    regex: Regex,
}

impl Pattern {
    /// The text the pattern was compiled from.
    pub closed spec fn source(&self) -> Seq<char> {
        self.source@
    }

    /// The text the pattern was compiled from.
    pub fn as_str(&self) -> (r: &str)
        ensures
            r@ == self.source(),
    {
        self.source.as_str()
    }
}

/// Relies on `regex::Regex::new`: compilation succeeds or fails depending on
/// the pattern text alone.
#[verifier::external_body]
fn new_regex(p: &str) -> (r: Result<Regex, regex::Error>)
    ensures
        r is Ok <==> regex_accepts(p@),
{
    Regex::new(p)
}

/// Relies on `regex::Regex::is_match`: true exactly when the regex matches
/// somewhere in the haystack.
#[verifier::external_body]
pub(crate) fn pattern_finds(p: &Pattern, haystack: &str) -> (r: bool)
    ensures
        r == regex_finds(p.source(), haystack@),
{
    p.regex.is_match(haystack)
}

/// Relies on `regex::Regex::replace`: the first match replaced, with `$`
/// references to capture groups expanded; the haystack itself when nothing
/// matches.
#[verifier::external_body]
pub(crate) fn pattern_replace_first(p: &Pattern, replacement: &str, haystack: &str) -> (r: String)
    ensures
        r@ == regex_replace_first(p.source(), replacement@, haystack@),
        !regex_finds(p.source(), haystack@) ==> r@ == haystack@,
{
    p.regex.replace(haystack, replacement).to_string()
}

/// Relies on `regex::Regex::replace_all`: every non-overlapping match
/// replaced, with `$` references to capture groups expanded; the haystack
/// itself when nothing matches.
#[verifier::external_body]
pub(crate) fn pattern_replace_every(p: &Pattern, replacement: &str, haystack: &str) -> (r: String)
    ensures
        r@ == regex_replace_every(p.source(), replacement@, haystack@),
        !regex_finds(p.source(), haystack@) ==> r@ == haystack@,
{
    p.regex.replace_all(haystack, replacement).to_string()
}

/// The error reported for a pattern that the regex engine refuses: it
/// carries the offending text.
pub open spec fn reports_invalid(e: TrampError, text: Seq<char>) -> bool {
    e is InvalidRegex && e->pattern@ == text
}

/// Compiles a pattern; a pattern the regex engine refuses gives an
/// `InvalidRegex` error naming it.
pub fn compile_regex(p: &str) -> (r: Result<Pattern, TrampError>)
    ensures
        r is Ok <==> regex_accepts(p@),
        r is Ok ==> r->Ok_0.source() == p@,
        r is Err ==> reports_invalid(r->Err_0, p@),
{
    match new_regex(p) {
        Ok(regex) => Ok(Pattern { source: String::from_str(p), regex }),
        Err(e) => Err(TrampError::InvalidRegex { pattern: String::from_str(p), reason: e.to_string() }),
    }
}

} // verus!
