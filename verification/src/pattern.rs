use regex::Regex;
use vstd::prelude::*;
use vstd::utf8::*;

verus! {

#[verifier::external_type_specification]
#[verifier::external_body]
pub struct ExRegex(Regex);

/// Whether the compiled pattern finds a match anywhere in `haystack`.
pub uninterp spec fn regex_is_match(pattern: Regex, haystack: Seq<char>) -> bool;

/// `Regex::is_match`: true exactly when the pattern has a match somewhere in
/// the haystack. The search itself is not modelled; its verdict is only named.
#[verifier::external_body]
pub(crate) fn is_match(pattern: &Regex, haystack: &str) -> (found: bool)
    ensures
        found == regex_is_match(*pattern, haystack@),
{
    pattern.is_match(haystack)
}

/// `core::str::from_utf8`: the bytes seen as text when they are well-formed
/// UTF-8, nothing otherwise.
#[verifier::external_body]
pub(crate) fn decode_text(bytes: &[u8]) -> (text: Option<&str>)
    ensures
        text is Some <==> valid_utf8(bytes@),
        text matches Some(s) ==> s@ == decode_utf8(bytes@),
{
    core::str::from_utf8(bytes).ok()
}

/// A candidate line matches when it is well-formed text in which the pattern
/// finds a match; bytes that do not decode never match.
pub open spec fn line_matches(pattern: Regex, line: Seq<u8>) -> bool {
    valid_utf8(line) && regex_is_match(pattern, decode_utf8(line))
}

/// Holds one candidate line against the pattern.
pub fn matches_line(pattern: &Regex, line: &[u8]) -> (verdict: bool)
    ensures
        verdict == line_matches(*pattern, line@),
{
    match decode_text(line) {
        Some(text) => is_match(pattern, text),
        None => false,
    }
}

} // verus!
