//! Regular-expression wait conditions, matched by the `regex` crate.

use vstd::prelude::*;

verus! {

#[verifier::external_type_specification]
#[verifier::external_body]
pub struct ExRegex(regex::Regex);

/// Whether `regex::Regex::new` accepts a pattern.
pub uninterp spec fn regex_compiles(pattern: Seq<char>) -> bool;

/// Whether the compiled `pattern` matches somewhere in `text`
/// (`regex::Regex::is_match`).
pub uninterp spec fn regex_matches(pattern: Seq<char>, text: Seq<char>) -> bool;

/// The message that `regex::Regex::new` reports for a pattern it refuses.
pub uninterp spec fn regex_error_text(pattern: Seq<char>) -> Seq<char>;

/// A compiled regular expression together with the pattern it was compiled
/// from.
#[derive(Debug)]
pub struct Pattern {
    source: String,
    re: regex::Regex,
}

/// Calls `regex::Regex::new`. Claims: it succeeds exactly on the patterns
/// named compilable, keeps the pattern text, and on failure reports the
/// error's message, which depends on the pattern alone.
#[verifier::external_body]
fn compile(pattern: &str) -> (r: Result<Pattern, String>)
    ensures
        r is Ok <==> regex_compiles(pattern@),
        r matches Ok(p) ==> p.source() == pattern@,
        r matches Err(m) ==> m@ == regex_error_text(pattern@),
{
    match regex::Regex::new(pattern) {
        Ok(re) => Ok(Pattern { source: pattern.to_string(), re }),
        Err(e) => Err(e.to_string()),
    }
}

impl Pattern {
    /// The pattern text.
    pub closed spec fn source(&self) -> Seq<char> {
        self.source@
    }

    /// Compiles `pattern`; on failure returns the regex error's message.
    pub fn new(pattern: &str) -> (r: Result<Pattern, String>)
        ensures
            r is Ok <==> regex_compiles(pattern@),
            r matches Ok(p) ==> p.source() == pattern@,
            r matches Err(m) ==> m@ == regex_error_text(pattern@),
    {
        compile(pattern)
    }

    /// The pattern text.
    pub fn as_str(&self) -> (s: &str)
        ensures
            s@ == self.source(),
    {
        self.source.as_str()
    }

    /// Calls `regex::Regex::is_match` on the compiled pattern. Claims: the
    /// answer is the named match relation of the pattern text and `text`
    /// (the compiled value was built from that text by `compile`, the only
    /// constructor).
    #[verifier::external_body]
    pub(crate) fn is_match(&self, text: &str) -> (b: bool)
        ensures
            b == regex_matches(self.source(), text@),
    {
        self.re.is_match(text)
    }
}

} // verus!
