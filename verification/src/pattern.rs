//! Regular-expression matching, done by the `regex` crate.
//!
//! Nothing here is proved: the two functions below are believed to return
//! what the crate returns, and that result is only given a name.

use regex::Regex;
use vstd::prelude::*;

verus! {

/// Whether `regex::Regex::new` accepts `pattern`, that is, returns a regular
/// expression and no error. It refuses a pattern that is not well formed and
/// one whose compiled form exceeds the crate's size limit; the patterns of
/// this library are short and far below that limit.
pub uninterp spec fn regex_compiles(pattern: Seq<char>) -> bool;

/// What `regex::Regex::is_match` answers for the regular expression that
/// `regex::Regex::new` compiles from `pattern`, searched anywhere in
/// `haystack`; `None` when `pattern` does not compile.
pub uninterp spec fn regex_is_match(pattern: Seq<char>, haystack: Seq<char>) -> Option<bool>;

/// What `regex::Regex::replace_all` returns for the regular expression that
/// `regex::Regex::new` compiles from `pattern`: `haystack` with every
/// non-overlapping match replaced by what `replacement` expands to, a `$`
/// in it referring to a capture group of the match; `None` when `pattern`
/// does not compile.
pub uninterp spec fn regex_replace_all(
    pattern: Seq<char>,
    haystack: Seq<char>,
    replacement: Seq<char>,
) -> Option<Seq<char>>;

/// Calls `regex::Regex::new` on `pattern` and `regex::Regex::is_match` on the
/// outcome. The contract only names the answer: the search is a function of
/// the pattern and the haystack alone. There is an answer exactly when the
/// pattern compiles.
#[verifier::external_body]
pub(crate) fn is_match(pattern: &str, haystack: &str) -> (found: Option<bool>)
    ensures
        found == regex_is_match(pattern@, haystack@),
        found is Some <==> regex_compiles(pattern@),
{
    match Regex::new(pattern) {
        Ok(re) => Some(re.is_match(haystack)),
        Err(_) => None,
    }
}

/// Calls `regex::Regex::new` on `pattern` and `regex::Regex::replace_all` on
/// the outcome. The contract only names the rewritten text: it is a function
/// of the pattern, the haystack and the replacement alone. There is a text
/// exactly when the pattern compiles.
#[verifier::external_body]
pub(crate) fn replace_all(pattern: &str, haystack: &str, replacement: &str) -> (rewritten: Option<
    String,
>)
    ensures
        match rewritten {
            Some(text) => regex_replace_all(pattern@, haystack@, replacement@) == Some(text@),
            None => regex_replace_all(pattern@, haystack@, replacement@) is None,
        },
        rewritten is Some <==> regex_compiles(pattern@),
{
    match Regex::new(pattern) {
        Ok(re) => Some(re.replace_all(haystack, replacement).into_owned()),
        Err(_) => None,
    }
}

} // verus!
