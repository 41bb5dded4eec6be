//! The regular-expression engine of the `regex` crate, as this library sees
//! it. Nothing in this file is proved: each contract restates what the
//! crate's documentation promises, and the rest of the library is verified
//! against these contracts.

use vstd::prelude::*;

verus! {

/// `regex::Regex`: a compiled regular expression. Opaque to the verifier.
#[verifier::external_type_specification]
#[verifier::external_body]
pub struct ExRegex(regex::Regex);

/// `regex::Error`: why an expression could not be compiled. Opaque to the
/// verifier.
#[verifier::external_type_specification]
#[verifier::external_body]
pub struct ExRegexError(regex::Error);

/// Whether `Regex::new` compiles `pattern`, under the crate's default
/// options.
pub uninterp spec fn regex_accepts(pattern: Seq<char>) -> bool;

/// The expression that a compiled regex was built from: the text that
/// `Regex::as_str` returns.
pub uninterp spec fn regex_source(compiled: regex::Regex) -> Seq<char>;

/// Whether a compiled regex was built under the crate's default options, as
/// `Regex::new` builds it. For such a regex the expression alone decides
/// what matches; a regex built by `RegexBuilder` with other options may
/// match otherwise.
pub uninterp spec fn regex_uses_defaults(compiled: regex::Regex) -> bool;

/// What `Regex::captures` finds in `haystack` for the regex that
/// `Regex::new` compiles from `pattern`: `None` when nothing matches;
/// otherwise, for the first match, one entry per capture group in the order
/// of their opening parentheses, entry 0 being the whole match. An entry is
/// the text the group matched, or `None` when the group took no part in the
/// match.
pub uninterp spec fn regex_captures(pattern: Seq<char>, haystack: Seq<char>) -> Option<
    Seq<Option<Seq<char>>>,
>;

/// `Regex::new` returns `Ok` exactly for the expressions it accepts. The
/// compiled regex is built under the default options and remembers the
/// expression it was given.
pub assume_specification[ regex::Regex::new ](re: &str) -> (compiled: Result<
    regex::Regex,
    regex::Error,
>)
    ensures
        compiled is Ok <==> regex_accepts(re@),
        compiled matches Ok(regex) ==> regex_source(regex) == re@ && regex_uses_defaults(regex),
;

/// `Regex::as_str` returns the expression that the regex was compiled from.
pub assume_specification<'a>[ regex::Regex::as_str ](compiled: &'a regex::Regex) -> (source: &'a str)
    ensures
        source@ == regex_source(*compiled),
;

/// Runs `Regex::captures` on `haystack` and copies the capture groups of the
/// first match out of the returned `Captures`, by `Captures::iter` and
/// `Match::as_str`. The contract only names the outcome: it is whatever the
/// engine finds for this expression in this text. That is claimed only of a
/// regex built under the default options.
#[verifier::external_body]
pub(crate) fn capture_groups(compiled: &regex::Regex, haystack: &str) -> (groups: Option<
    Vec<Option<String>>,
>)
    requires
        regex_uses_defaults(*compiled),
    ensures
        groups.deep_view() == regex_captures(regex_source(*compiled), haystack@),
{
    let captures = compiled.captures(haystack)?;
    let mut groups = Vec::with_capacity(captures.len());
    for group in captures.iter() {
        groups.push(group.map(|found| found.as_str().to_string()));
    }
    Some(groups)
}

} // verus!
