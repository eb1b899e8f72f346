//! What this library takes on trust from the `regex` crate: compiling a list
//! of patterns into one `RegexSet`, and asking the set whether a text matches.

use vstd::prelude::*;
use regex::RegexSet;
use crate::remote::texts;

verus! {

/// `regex::RegexSet`, carried as an opaque value.
#[verifier::external_type_specification]
#[verifier::external_body]
pub struct ExRegexSet(regex::RegexSet);

/// `regex::Error`, carried as an opaque value.
#[verifier::external_type_specification]
#[verifier::external_body]
pub struct ExRegexError(regex::Error);

/// The pattern strings a set was compiled from, in the order they were
/// given: what `RegexSet::patterns` hands out.
pub uninterp spec fn regex_set_patterns(set: RegexSet) -> Seq<Seq<char>>;

/// The texts a set matches: those on which `RegexSet::is_match` answers
/// `true`.
pub uninterp spec fn regex_set_accepts(set: RegexSet) -> Set<Seq<char>>;

/// What `RegexSet::new` makes of a list of patterns: `None` where it refuses
/// the list, otherwise the texts that the compiled set matches.
pub uninterp spec fn compiled_language(patterns: Seq<Seq<char>>) -> Option<Set<Seq<char>>>;

/// Calls `regex::RegexSet::new` on the patterns, in order.
///
/// Trusted: the outcome depends on the pattern strings alone. A set that
/// comes back holds exactly the patterns given and matches the texts that
/// `compiled_language` names for them; an error comes back exactly where
/// `compiled_language` is `None`. An empty list is never refused (the crate
/// builds `RegexSet::empty` by this very call and unwraps it).
#[verifier::external_body]
pub(crate) fn compile_set(patterns: &Vec<String>) -> (compiled: Result<RegexSet, regex::Error>)
    ensures
        match compiled {
            Ok(set) => regex_set_patterns(set) == texts(patterns@)
                && compiled_language(texts(patterns@)) == Some(regex_set_accepts(set)),
            Err(_) => compiled_language(texts(patterns@)) is None,
        },
        patterns@.len() == 0 ==> compiled is Ok,
{
    RegexSet::new(patterns)
}

/// Calls `regex::RegexSet::is_match`.
///
/// Trusted: the answer says whether the text is among those the set matches,
/// and a set without patterns matches nothing, not even the empty text.
#[verifier::external_body]
pub(crate) fn set_is_match(set: &RegexSet, text: &str) -> (matched: bool)
    ensures
        matched == regex_set_accepts(*set).contains(text@),
        regex_set_patterns(*set).len() == 0 ==> !matched,
{
    set.is_match(text)
}

/// Renders a `regex::Error` through its `Display` impl. Nothing is claimed of
/// the text.
#[verifier::external_body]
pub(crate) fn error_text(error: &regex::Error) -> (text: String) {
    error.to_string()
}

} // verus!
