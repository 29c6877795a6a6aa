//! Pattern matching on text, delegated to the `regex` crate.

use vstd::prelude::*;
use crate::text::opt_view;

verus! {

/// What `regex` captures in group 1 at the leftmost match of `pattern` in
/// `text`: `None` when the pattern does not compile, when it matches nowhere,
/// or when group 1 takes no part in the match.
pub uninterp spec fn first_group(pattern: Seq<char>, text: Seq<char>) -> Option<Seq<char>>;

/// Compiles `pattern` with `regex::Regex::new`, searches `text` with
/// `Regex::captures` and copies out group 1 of the leftmost match.
///
/// The contract only gives the outcome its name: it is a function of the
/// pattern and the text alone.
#[verifier::external_body]
pub(crate) fn capture_first_group(pattern: &str, text: &str) -> (found: Option<String>)
    ensures
        opt_view(found) == first_group(pattern@, text@),
{
    let compiled = regex::Regex::new(pattern).ok()?;
    let captures = compiled.captures(text)?;
    captures.get(1).map(|m| m.as_str().to_string())
}

} // verus!
