//! Regular expressions, held as pattern text and evaluated by the `regex` crate.
//!
//! The library keeps every pattern as a string. Compiling, matching and
//! replacing are done by `regex`, whose results are named here and not proved.

use vstd::prelude::*;

verus! {

/// Whether `regex::Regex::new` accepts `pattern`.
pub uninterp spec fn regex_accepts(pattern: Seq<char>) -> bool;

/// What `regex::Regex::is_match` returns on `text` for the expression that
/// `regex::Regex::new` compiles from an accepted `pattern`.
pub uninterp spec fn regex_is_match(pattern: Seq<char>, text: Seq<char>) -> bool;

/// What `regex::Regex::replace_all` returns on `text` with the replacement
/// `rep` for the expression that `regex::Regex::new` compiles from an
/// accepted `pattern`.
pub uninterp spec fn regex_replace_all(pattern: Seq<char>, text: Seq<char>, rep: Seq<char>) -> Seq<
    char,
>;

/// Whether `pattern` compiles and matches somewhere in `text`.
pub open spec fn pattern_matches(pattern: Seq<char>, text: Seq<char>) -> bool {
    regex_accepts(pattern) && regex_is_match(pattern, text)
}

/// `text` with every match of `pattern` removed; `text` itself where the
/// pattern does not compile.
pub open spec fn without_matches(pattern: Seq<char>, text: Seq<char>) -> Seq<char> {
    if regex_accepts(pattern) {
        regex_replace_all(pattern, text, Seq::<char>::empty())
    } else {
        text
    }
}

/// Calls `regex::Regex::new` on `pattern` and `Regex::is_match` on `text`.
/// Trusted: the result is `None` exactly when the compiler rejects the
/// pattern, and otherwise holds the named value `regex_is_match`.
#[verifier::external_body]
pub(crate) fn is_match(pattern: &str, text: &str) -> (r: Option<bool>)
    ensures
        r.is_some() == regex_accepts(pattern@),
        r.is_some() ==> r.unwrap() == regex_is_match(pattern@, text@),
{
    match regex::Regex::new(pattern) {
        Ok(re) => Some(re.is_match(text)),
        Err(_) => None,
    }
}

/// Calls `regex::Regex::new` on `pattern` and `Regex::replace_all` on `text`
/// with the replacement `rep`. Trusted: the result is `None` exactly when the
/// compiler rejects the pattern, and otherwise holds the named value
/// `regex_replace_all`.
#[verifier::external_body]
pub(crate) fn replace_all(pattern: &str, text: &str, rep: &str) -> (r: Option<String>)
    ensures
        r.is_some() == regex_accepts(pattern@),
        r.is_some() ==> r.unwrap()@ == regex_replace_all(pattern@, text@, rep@),
{
    match regex::Regex::new(pattern) {
        Ok(re) => Some(re.replace_all(text, rep).into_owned()),
        Err(_) => None,
    }
}

/// Whether `pattern` compiles and matches somewhere in `text`.
pub fn has_match(pattern: &str, text: &str) -> (r: bool)
    ensures
        r == pattern_matches(pattern@, text@),
{
    match is_match(pattern, text) {
        Some(found) => found,
        None => false,
    }
}

/// Whether `pattern` is accepted by the regular-expression compiler.
pub fn compiles(pattern: &str) -> (r: bool)
    ensures
        r == regex_accepts(pattern@),
{
    is_match(pattern, "").is_some()
}

/// Removes every match of `pattern` from `text`. A pattern that does not
/// compile removes nothing.
pub fn remove_matches(pattern: &str, text: &str) -> (r: String)
    ensures
        r@ == without_matches(pattern@, text@),
{
    proof {
        reveal_strlit("");
    }
    assert(""@ =~= Seq::<char>::empty());
    match replace_all(pattern, text, "") {
        Some(rest) => rest,
        None => String::from_str(text),
    }
}

} // verus!
