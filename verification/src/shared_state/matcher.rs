use vstd::prelude::*;
use regex::Regex;
use super::{regex_compiles, regex_is_match};

verus! {

#[verifier::external_type_specification]
#[verifier::external_body]
pub struct ExRegex(Regex);

#[verifier::external_type_specification]
#[verifier::external_body]
pub struct ExRegexError(regex::Error);

/// A compiled regex together with the pattern it was compiled from. The
/// fields are private to this module, where no verified code runs:
/// `compile_regex` is the only way to build one, and it compiles the very
/// pattern it records, so the regex is always the compilation of the
/// pattern.
pub struct Matcher {
    source: String,
    regex: Regex,
}

/// Compiles a pattern: calls `regex::Regex::new`, which depends on the
/// pattern alone, and keeps the pattern beside the compiled regex. Claimed:
/// it succeeds exactly when `regex_compiles` holds, and the matcher records
/// the pattern given.
#[verifier::external_body]
pub(crate) fn compile_regex(pattern: &str) -> (res: Result<Matcher, regex::Error>)
    ensures
        res is Ok <==> regex_compiles(pattern@),
        res matches Ok(m) ==> m.pattern() == pattern@,
{
    match Regex::new(pattern) {
        Ok(regex) => Ok(Matcher { source: pattern.to_owned(), regex }),
        Err(e) => Err(e),
    }
}

impl Matcher {
    /// The pattern that this matcher was compiled from.
    pub closed spec fn pattern(&self) -> Seq<char> {
        self.source@
    }

    /// Whether the text matches: calls `regex::Regex::is_match` on the
    /// compiled regex. Claimed: the answer is `regex_is_match` of the pattern
    /// the regex was compiled from and the text.
    #[verifier::external_body]
    pub fn is_match(&self, text: &str) -> (r: bool)
        ensures
            r == regex_is_match(self.pattern(), text@),
    {
        self.regex.is_match(text)
    }
}

} // verus!
