//! Text extraction with the `regex` crate.
use vstd::prelude::*;

use crate::text::opt_view;

verus! {

/// What the first capture group of `pattern` matches in `haystack`, at the leftmost match
/// that the `regex` crate reports: `None` when there is no match or the group took no part.
pub uninterp spec fn regex_first_group(pattern: Seq<char>, haystack: Seq<char>) -> Option<Seq<char>>;

/// Whether `regex::Regex::new` accepts the pattern: it is valid syntax and compiles within
/// the default size limit.
pub uninterp spec fn regex_compiles(pattern: Seq<char>) -> bool;

/// Compiles `pattern` with `regex::Regex::new` and returns the text of capture group 1 of
/// the first match of `regex::Regex::captures` in `haystack`. Claimed: compilation succeeds
/// exactly when `regex_compiles(pattern)`, and then the result is
/// `regex_first_group(pattern, haystack)`; when it fails, the error's message comes back
/// (its text is not stated).
#[verifier::external_body]
pub(crate) fn first_capture(pattern: &str, haystack: &str) -> (r: Result<Option<String>, String>)
    ensures
        r is Ok <==> regex_compiles(pattern@),
        r matches Ok(g) ==> opt_view(g) == regex_first_group(pattern@, haystack@),
{
    let re = match regex::Regex::new(pattern) {
        Ok(re) => re,
        Err(e) => return Err(e.to_string()),
    };
    match re.captures(haystack) {
        Some(caps) => match caps.get(1) {
            Some(m) => Ok(Some(m.as_str().to_string())),
            None => Ok(None),
        },
        None => Ok(None),
    }
}

} // verus!
