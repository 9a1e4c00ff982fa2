//! Glob and regular-expression matching, done by the `glob` and `regex`
//! crates, and the lower-casing of text, done by the standard library.
//!
//! Nothing in this module is proved. Each function states what the library
//! relies on; what the outside code returns is given a name, and the
//! evaluator's contract speaks of that name.

use vstd::prelude::*;

verus! {

/// What `glob` makes of `pattern` and `text`: `None` where the pattern does
/// not compile, else whether the compiled pattern matches the whole text
/// under the crate's default options.
pub uninterp spec fn glob_outcome(pattern: Seq<char>, text: Seq<char>) -> Option<bool>;

/// What `regex` makes of `pattern` and `text`: `None` where the pattern does
/// not compile, else whether the compiled expression matches somewhere in
/// the text.
pub uninterp spec fn regex_outcome(pattern: Seq<char>, text: Seq<char>) -> Option<bool>;

/// The lower-case form of `text`, as `str::to_lowercase` gives it.
pub uninterp spec fn lowercase(text: Seq<char>) -> Seq<char>;

/// Compiles `pattern` with `glob::Pattern::new` and tests `text` with
/// `glob::Pattern::matches`. Both are functions of their arguments alone
/// (the path separator that `**` goes by is fixed when the library is
/// built), and neither panics; the contract names the result and claims no
/// more.
#[verifier::external_body]
pub(crate) fn glob_match(pattern: &str, text: &str) -> (outcome: Option<bool>)
    ensures
        outcome == glob_outcome(pattern@, text@),
{
    match glob::Pattern::new(pattern) {
        Ok(compiled) => Some(compiled.matches(text)),
        Err(_) => None,
    }
}

/// Compiles `pattern` with `regex::Regex::new` and tests `text` with
/// `regex::Regex::is_match`. Both are functions of their arguments alone
/// and neither panics; the contract names the result and claims no more.
#[verifier::external_body]
pub(crate) fn regex_match(pattern: &str, text: &str) -> (outcome: Option<bool>)
    ensures
        outcome == regex_outcome(pattern@, text@),
{
    match regex::Regex::new(pattern) {
        Ok(compiled) => Some(compiled.is_match(text)),
        Err(_) => None,
    }
}

/// `str::to_lowercase`: the text with each character replaced by its
/// lower-case form, which does not depend on a locale. The contract names
/// the result.
#[verifier::external_body]
pub(crate) fn to_lowercase(text: &str) -> (lower: String)
    ensures
        lower@ == lowercase(text@),
{
    text.to_lowercase()
}

} // verus!
