//! The regex boundary.
//!
//! Classification depends on whether a configured pattern matches a
//! captured output stream.  Matching itself is the regex crate's work;
//! the library names its result (`re_match`) and keeps, next to every
//! compiled pattern, the pattern text it was compiled from, so that
//! contracts can speak about which pattern matched what.

use vstd::prelude::*;

verus! {

#[verifier::external_type_specification]
#[verifier::external_body]
pub struct ExRegex(regex::Regex);

#[verifier::external_type_specification]
#[verifier::external_body]
pub struct ExBytesRegex(regex::bytes::Regex);

#[verifier::external_type_specification]
#[verifier::external_body]
pub struct ExRegexError(regex::Error);

/// Whether the pattern `pattern` matches somewhere in the byte
/// haystack `hay`, as decided by `regex::bytes::Regex::is_match`.
/// The result is a function of the pattern and the haystack alone.
pub uninterp spec fn re_match(pattern: Seq<char>, hay: Seq<u8>) -> bool;

/// Whether `regex::bytes::Regex::new` accepts the pattern — a
/// function of the pattern text alone (the default configuration is
/// always used).
pub uninterp spec fn re_compiles(pattern: Seq<char>) -> bool;

/// Whether the text-matching `regex::Regex::new` accepts the pattern
/// — a function of the pattern text alone.  Distinct from
/// [`re_compiles`]: the byte-matching compiler accepts some patterns
/// (those that can match invalid UTF-8) that this one refuses.
pub uninterp spec fn re_text_compiles(pattern: Seq<char>) -> bool;

/// A compiled pattern together with the text it was compiled from.
/// Values only ever come out of [`CompiledRegex::compile`], which keeps
/// the two fields in agreement.
pub struct CompiledRegex {
    re: regex::bytes::Regex,
    pattern: String,
}

impl CompiledRegex {
    /// The text this pattern was compiled from.
    pub closed spec fn pattern_spec(&self) -> Seq<char> {
        self.pattern@
    }

    /// Relies on `regex::bytes::Regex::new`: it compiles exactly the
    /// pattern text it is handed, or reports why it cannot; acceptance
    /// depends on the pattern text alone.
    #[verifier::external_body]
    pub fn compile(pattern: &str) -> (r: Result<CompiledRegex, regex::Error>)
        ensures
            r is Ok <==> re_compiles(pattern@),
            r matches Ok(c) ==> c.pattern_spec() == pattern@,
    {
        match regex::bytes::Regex::new(pattern) {
            Ok(re) => Ok(CompiledRegex { re, pattern: pattern.to_owned() }),
            Err(e) => Err(e),
        }
    }

    /// Relies on `regex::bytes::Regex::is_match`: whether the compiled
    /// pattern matches the haystack, a function of pattern text and
    /// haystack alone.
    #[verifier::external_body]
    pub fn is_match(&self, hay: &[u8]) -> (r: bool)
        ensures
            r == re_match(self.pattern_spec(), hay@),
    {
        self.re.is_match(hay)
    }

    /// The pattern text, for re-use in derived filters and reports.
    pub fn pattern_text(&self) -> (r: &str)
        ensures
            r@ == self.pattern_spec(),
    {
        self.pattern.as_str()
    }
}

/// Relies on `regex::Regex::new`: compiles the pattern for the external
/// reduction engine's own command check, which matches decoded text;
/// acceptance depends on the pattern text alone.
#[verifier::external_body]
pub(crate) fn compile_engine_regex(pattern: &str) -> (r: Result<regex::Regex, regex::Error>)
    ensures
        r is Ok <==> re_text_compiles(pattern@),
{
    regex::Regex::new(pattern)
}

} // verus!
